use chip8::{Display, InputIndex, InputState};

fn key(i: usize) -> InputIndex {
    InputIndex::from_usize(i).unwrap()
}

#[test]
fn test_input_index_positions() {
    assert!(InputIndex::from_usize(16).is_none());
    assert!(InputIndex::from_usize(300).is_none());
    assert_eq!(key(15).as_usize(), 15);
    let labels: String = InputIndex::all_iter().into_iter().map(|k| k.as_char()).collect();
    assert_eq!(labels, "123C456D789EA0BF");
    let all = InputIndex::all_iter();
    assert_eq!(all.len(), InputIndex::TOTAL_INDICES);
    for (i, k) in all.into_iter().enumerate() {
        assert_eq!(k.as_usize(), i);
    }
}

#[test]
fn test_set_unset_toggle() {
    let mut state = InputState::new();
    assert!(!state.copy().any());
    state.set(key(3));
    assert!(state.copy().check(key(3)));
    assert!(!state.copy().check(key(4)));
    assert!(state.copy().any());
    assert_eq!(state.bits(), 0b1000);
    state.toggle(key(4));
    assert_eq!(state.bits(), 0b1_1000);
    state.toggle(key(4));
    assert_eq!(state.bits(), 0b1000);
    state.unset(key(3));
    assert!(!state.copy().any());
    assert_eq!(state.copy().with_set(key(15)).bits(), 0x8000);
    assert_eq!(InputState::from_bits(0xFFFF).with_unset(key(0)).bits(), 0xFFFE);
    assert_eq!(InputState::from_bits(1).with_toggled(key(0)).bits(), 0);
    assert!(InputState::default() == InputState::new());
}

#[test]
fn test_display_pixels() {
    let mut display = Display::new();
    assert!(!display.get(0, 0));
    display.as_board_mut()[1] = 1u64 << 63;
    assert!(display.get(0, 1));
    // coordinates wrap around
    assert!(display.get(64, 33));
    display.as_board_mut()[0] = 1;
    assert!(display.get(63, 0));
    assert!(!display.get(62, 0));
    display.clear();
    assert_eq!(*display.as_board(), [0u64; 32]);
    assert_eq!(*Display::default().as_board(), [0u64; 32]);
}

#[test]
fn test_input_state_as_binary() {
    assert_eq!(InputState::new().to_string(), "0000000000000000");
    assert_eq!(InputState::from_bits(0b1000_0000_0000_0101).to_string(), "1000000000000101");
    let mut state = InputState::new();
    state.set(key(4));
    assert_eq!(state.to_string(), "0000000000010000");
}

#[test]
fn test_key_values() {
    let values: Vec<u8> = InputIndex::all_iter().into_iter().map(|k| k.value()).collect();
    assert_eq!(values, vec![1, 2, 3, 0xC, 4, 5, 6, 0xD, 7, 8, 9, 0xE, 0xA, 0, 0xB, 0xF]);
    for v in 0..16u8 {
        assert_eq!(InputIndex::from_value(v).unwrap().value(), v);
    }
    assert_eq!(InputIndex::from_value(1).unwrap().as_usize(), 0);
    assert!(InputIndex::from_value(16).is_err());
}

#[test]
fn test_named_keys() {
    assert_eq!(InputIndex::_1().as_usize(), 0);
    assert_eq!(InputIndex::_C().as_usize(), 3);
    assert_eq!(InputIndex::_0().as_usize(), 13);
    assert_eq!(InputIndex::_F().as_usize(), 15);
    let named = [
        InputIndex::_0(), InputIndex::_1(), InputIndex::_2(), InputIndex::_3(),
        InputIndex::_4(), InputIndex::_5(), InputIndex::_6(), InputIndex::_7(),
        InputIndex::_8(), InputIndex::_9(), InputIndex::_A(), InputIndex::_B(),
        InputIndex::_C(), InputIndex::_D(), InputIndex::_E(), InputIndex::_F(),
    ];
    for (v, k) in named.into_iter().enumerate() {
        assert_eq!(k.value() as usize, v);
        assert_eq!(k.as_char(), std::char::from_digit(v as u32, 16).unwrap().to_ascii_uppercase());
    }
}
