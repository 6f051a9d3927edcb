use chip8::{Emulator, InputState, Seed, Seeder};

struct DummySeeder;

impl Seeder for DummySeeder {
    fn seed(self, seed: &mut Seed) {
        *seed = std::array::from_fn(|i| i as u32 ^ 0x5F);
    }
}

/// The opcode test ROM (`test_opcode.ch8`, 478 bytes): it runs one check per
/// opcode group and draws a mark for each result.
static TEST_OPCODE_ROM: [u8; 478] = [
    0x12, 0x4E, 0xEA, 0xAC, 0xAA, 0xEA, 0xCE, 0xAA, 0xAA, 0xAE, 0xE0, 0xA0, 0xA0, 0xE0, 0xC0, 0x40,
    0x40, 0xE0, 0xE0, 0x20, 0xC0, 0xE0, 0xE0, 0x60, 0x20, 0xE0, 0xA0, 0xE0, 0x20, 0x20, 0x60, 0x40,
    0x20, 0x40, 0xE0, 0x80, 0xE0, 0xE0, 0xE0, 0x20, 0x20, 0x20, 0xE0, 0xE0, 0xA0, 0xE0, 0xE0, 0xE0,
    0x20, 0xE0, 0x40, 0xA0, 0xE0, 0xA0, 0xE0, 0xC0, 0x80, 0xE0, 0xE0, 0x80, 0xC0, 0x80, 0xA0, 0x40,
    0xA0, 0xA0, 0xA2, 0x02, 0xDA, 0xB4, 0x00, 0xEE, 0xA2, 0x02, 0xDA, 0xB4, 0x13, 0xDC, 0x68, 0x01,
    0x69, 0x05, 0x6A, 0x0A, 0x6B, 0x01, 0x65, 0x2A, 0x66, 0x2B, 0xA2, 0x16, 0xD8, 0xB4, 0xA2, 0x3E,
    0xD9, 0xB4, 0xA2, 0x02, 0x36, 0x2B, 0xA2, 0x06, 0xDA, 0xB4, 0x6B, 0x06, 0xA2, 0x1A, 0xD8, 0xB4,
    0xA2, 0x3E, 0xD9, 0xB4, 0xA2, 0x06, 0x45, 0x2A, 0xA2, 0x02, 0xDA, 0xB4, 0x6B, 0x0B, 0xA2, 0x1E,
    0xD8, 0xB4, 0xA2, 0x3E, 0xD9, 0xB4, 0xA2, 0x06, 0x55, 0x60, 0xA2, 0x02, 0xDA, 0xB4, 0x6B, 0x10,
    0xA2, 0x26, 0xD8, 0xB4, 0xA2, 0x3E, 0xD9, 0xB4, 0xA2, 0x06, 0x76, 0xFF, 0x46, 0x2A, 0xA2, 0x02,
    0xDA, 0xB4, 0x6B, 0x15, 0xA2, 0x2E, 0xD8, 0xB4, 0xA2, 0x3E, 0xD9, 0xB4, 0xA2, 0x06, 0x95, 0x60,
    0xA2, 0x02, 0xDA, 0xB4, 0x6B, 0x1A, 0xA2, 0x32, 0xD8, 0xB4, 0xA2, 0x3E, 0xD9, 0xB4, 0x22, 0x42,
    0x68, 0x17, 0x69, 0x1B, 0x6A, 0x20, 0x6B, 0x01, 0xA2, 0x0A, 0xD8, 0xB4, 0xA2, 0x36, 0xD9, 0xB4,
    0xA2, 0x02, 0xDA, 0xB4, 0x6B, 0x06, 0xA2, 0x2A, 0xD8, 0xB4, 0xA2, 0x0A, 0xD9, 0xB4, 0xA2, 0x06,
    0x87, 0x50, 0x47, 0x2A, 0xA2, 0x02, 0xDA, 0xB4, 0x6B, 0x0B, 0xA2, 0x2A, 0xD8, 0xB4, 0xA2, 0x0E,
    0xD9, 0xB4, 0xA2, 0x06, 0x67, 0x2A, 0x87, 0xB1, 0x47, 0x2B, 0xA2, 0x02, 0xDA, 0xB4, 0x6B, 0x10,
    0xA2, 0x2A, 0xD8, 0xB4, 0xA2, 0x12, 0xD9, 0xB4, 0xA2, 0x06, 0x66, 0x78, 0x67, 0x1F, 0x87, 0x62,
    0x47, 0x18, 0xA2, 0x02, 0xDA, 0xB4, 0x6B, 0x15, 0xA2, 0x2A, 0xD8, 0xB4, 0xA2, 0x16, 0xD9, 0xB4,
    0xA2, 0x06, 0x66, 0x78, 0x67, 0x1F, 0x87, 0x63, 0x47, 0x67, 0xA2, 0x02, 0xDA, 0xB4, 0x6B, 0x1A,
    0xA2, 0x2A, 0xD8, 0xB4, 0xA2, 0x1A, 0xD9, 0xB4, 0xA2, 0x06, 0x66, 0x8C, 0x67, 0x8C, 0x87, 0x64,
    0x47, 0x18, 0xA2, 0x02, 0xDA, 0xB4, 0x68, 0x2C, 0x69, 0x30, 0x6A, 0x34, 0x6B, 0x01, 0xA2, 0x2A,
    0xD8, 0xB4, 0xA2, 0x1E, 0xD9, 0xB4, 0xA2, 0x06, 0x66, 0x8C, 0x67, 0x78, 0x87, 0x65, 0x47, 0xEC,
    0xA2, 0x02, 0xDA, 0xB4, 0x6B, 0x06, 0xA2, 0x2A, 0xD8, 0xB4, 0xA2, 0x22, 0xD9, 0xB4, 0xA2, 0x06,
    0x66, 0xE0, 0x86, 0x6E, 0x46, 0xC0, 0xA2, 0x02, 0xDA, 0xB4, 0x6B, 0x0B, 0xA2, 0x2A, 0xD8, 0xB4,
    0xA2, 0x36, 0xD9, 0xB4, 0xA2, 0x06, 0x66, 0x0F, 0x86, 0x66, 0x46, 0x07, 0xA2, 0x02, 0xDA, 0xB4,
    0x6B, 0x10, 0xA2, 0x3A, 0xD8, 0xB4, 0xA2, 0x1E, 0xD9, 0xB4, 0xA3, 0xE8, 0x60, 0x00, 0x61, 0x30,
    0xF1, 0x55, 0xA3, 0xE9, 0xF0, 0x65, 0xA2, 0x06, 0x40, 0x30, 0xA2, 0x02, 0xDA, 0xB4, 0x6B, 0x15,
    0xA2, 0x3A, 0xD8, 0xB4, 0xA2, 0x16, 0xD9, 0xB4, 0xA3, 0xE8, 0x66, 0x89, 0xF6, 0x33, 0xF2, 0x65,
    0xA2, 0x02, 0x30, 0x01, 0xA2, 0x06, 0x31, 0x03, 0xA2, 0x06, 0x32, 0x07, 0xA2, 0x06, 0xDA, 0xB4,
    0x6B, 0x1A, 0xA2, 0x0E, 0xD8, 0xB4, 0xA2, 0x3E, 0xD9, 0xB4, 0x12, 0x48, 0x13, 0xDC,
];

#[test]
fn test_opcodes() {
    let rom = TEST_OPCODE_ROM.as_slice();
    let mut emu = Emulator::new_with_rom(rom, DummySeeder);

    static TEST_SUCCESS: [u64; 32] = [
        0b0000000000000000000000000000000000000000000000000000000000000000,
        0b0111010100111010100000011101110011101010000011100110111010100000,
        0b0011001000101011000000010101100010101100000011100100101011000000,
        0b0001010100101010100000010101000010101010000010100010101010100000,
        0b0111010100111010100000011101110011101010000011100100111010100000,
        0b0000000000000000000000000000000000000000000000000000000000000000,
        0b0101010100111010100000011101110011101010000011101110111010100000,
        0b0111001000101011000000011101010010101100000011101000101011000000,
        0b0001010100101010100000010101010010101010000010101110101010100000,
        0b0001010100111010100000011101110011101010000011101110111010100000,
        0b0000000000000000000000000000000000000000000000000000000000000000,
        0b0011010100111010100000011101100011101010000011101110111010100000,
        0b0010001000101011000000011100100010101100000011101100101011000000,
        0b0001010100101010100000010100100010101010000010101000101010100000,
        0b0010010100111010100000011101110011101010000011101110111010100000,
        0b0000000000000000000000000000000000000000000000000000000000000000,
        0b0111010100111010100000011101110011101010000011100110111010100000,
        0b0001001000101011000000011100010010101100000010000100101011000000,
        0b0001010100101010100000010101100010101010000011000010101010100000,
        0b0001010100111010100000011101110011101010000010000100111010100000,
        0b0000000000000000000000000000000000000000000000000000000000000000,
        0b0111010100111010100000011101110011101010000011101110111010100000,
        0b0111001000101011000000011100110010101100000010000110101011000000,
        0b0001010100101010100000010100010010101010000011000010101010100000,
        0b0111010100111010100000011101110011101010000010001110111010100000,
        0b0000000000000000000000000000000000000000000000000000000000000000,
        0b0010010100111010100000011101010011101010000011001010111010100000,
        0b0101001000101011000000011101110010101100000001000100101011000000,
        0b0111010100101010100000010100010010101010000001001010101010100000,
        0b0101010100111010100000011100010011101010000011101010111010100000,
        0b0000000000000000000000000000000000000000000000000000000000000000,
        0b0000000000000000000000000000000000000000000000000000000000000000,
    ];

    let mut cycles_executed: u32 = 0;
    loop {
        emu.run_cycle(InputState::new()).unwrap();
        cycles_executed += 1;
        if emu.pc() == 0x3DC {
            let test_success = *emu.current_display().as_board() == TEST_SUCCESS;
            assert!(test_success, "some opcode tests failed");
            break
        }

        if cycles_executed == 202 {
            panic!("executed too many times and didn't reach success loop")
        }
    }
}
