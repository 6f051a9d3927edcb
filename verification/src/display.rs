use vstd::prelude::*;
use crate::Fault;
use crate::mem::{Addr, Memory};
use crate::niche_opt::Nibble;

verus! {

/// `v` rotated right by `n` bits, for `n < 64`.
pub open spec fn rotate_right_spec(v: u64, n: u64) -> u64 {
    if n == 0 {
        v
    } else {
        (v >> n) | (v << ((64 - n) as u64))
    }
}

/// The row of pixels that sprite byte `byte` lights when drawn at column `x`:
/// the byte's most significant bit lands on column `x` and the sprite wraps
/// around to the left edge.
pub open spec fn sprite_row(byte: u8, x: u8) -> u64 {
    rotate_right_spec((byte as u64) << 56u64, x as u64)
}

/// Whether pixel `(x, y)` of `board` is lit; coordinates wrap around the screen.
pub open spec fn pixel_at(board: Seq<u64>, x: u8, y: u8) -> bool {
    (board[(y % 32) as int] >> ((63 - (x % 64)) as u64)) & 1 == 1
}

/// How many of the `height` sprite rows starting at `index` lie inside memory.
pub open spec fn rows_in_memory(index: u16, height: u8) -> int {
    if index as int + height as int <= 4096 {
        height as int
    } else if index < 4096 {
        4096 - index as int
    } else {
        0
    }
}

/// `board` after XOR-ing the first `n` rows of the sprite at `index` onto it at
/// `(x, y)`; sprite row `i` lands on screen row `(y + i) % 32`.
pub open spec fn draw_rows(board: Seq<u64>, mem: Seq<u8>, x: u8, y: u8, index: u16, n: int) -> Seq<u64> {
    Seq::new(
        32,
        |r: int|
            {
                let i = (r - y as int + 32) % 32;
                if i < n {
                    board[r] ^ sprite_row(mem[index as int + i], x)
                } else {
                    board[r]
                }
            },
    )
}

/// Whether one of the first `n` sprite rows overlaps a lit pixel of `board`.
pub open spec fn rows_collide(board: Seq<u64>, mem: Seq<u8>, x: u8, y: u8, index: u16, n: int) -> bool {
    exists|i: int|
        0 <= i < n && #[trigger] (board[(y as int + i) % 32] & sprite_row(mem[index as int + i], x))
            != 0
}

/// The effect of drawing the `height`-row sprite at `index` at `(x, y)`: the
/// new board (with the coordinates taken modulo the screen size, and only the
/// rows whose sprite byte lies inside memory drawn) and whether the draw
/// succeeded with a collision, without one, or with a memory fault.
pub open spec fn draw_spec(board: Seq<u64>, mem: Seq<u8>, x: u8, y: u8, height: u8, index: u16) -> (Seq<u64>, Result<bool, Fault>) {
    let x = x % 64;
    let y = y % 32;
    let n = rows_in_memory(index, height);
    (
        draw_rows(board, mem, x, y, index, n),
        if n == height as int {
            Ok(rows_collide(board, mem, x, y, index, n))
        } else {
            Err(Fault::Memory)
        },
    )
}

/// `v` rotated right by `n` bits.
fn rotate_right(v: u64, n: u64) -> (r: u64)
    requires
        n < 64,
    ensures
        r == rotate_right_spec(v, n),
{
    if n == 0 {
        v
    } else {
        (v >> n) | (v << (64 - n))
    }
}

/// The 64×32 monochrome screen. Each `u64` is a row, and in each row the
/// leftmost pixel is the most significant bit.
#[derive(Clone)]
pub struct Display(pub(crate) [u64; 32]);

impl View for Display {
    type V = Seq<u64>;

    closed spec fn view(&self) -> Seq<u64> {
        self.0@
    }
}

impl Default for Display {
    fn default() -> (r: Self)
        ensures
            r@ == Seq::new(32, |i: int| 0u64),
    {
        Self::new()
    }
}

impl Display {
    pub const VIDEO_WIDTH: u8 = 64;

    pub const VIDEO_HEIGHT: u8 = 32;

    /// A blank screen.
    pub fn new() -> (r: Self)
        ensures
            r@ == Seq::new(32, |i: int| 0u64),
    {
        let r = Self([0u64; 32]);
        assert(r@ =~= Seq::new(32, |i: int| 0u64));
        r
    }

    /// Turns every pixel off.
    pub fn clear(&mut self)
        ensures
            final(self)@ == Seq::new(32, |i: int| 0u64),
    {
        self.0 = [0u64; 32];
        assert(self@ =~= Seq::new(32, |i: int| 0u64));
    }

    /// The rows of the screen: each `u64` is a row, and in each row the
    /// leftmost pixel is the most significant bit.
    pub fn as_board(&self) -> (r: &[u64; 32])
        ensures
            r@ == self@,
    {
        &self.0
    }

    /// The rows of the screen, writable; laid out as in `as_board`.
    pub fn as_board_mut(&mut self) -> (r: &mut [u64; 32])
        ensures
            r@ == old(self)@,
            final(self)@ == final(r)@,
    {
        &mut self.0
    }

    /// Whether pixel `(x, y)` is lit; `x` is taken modulo 64 and `y` modulo 32.
    pub fn get(&self, x: u8, y: u8) -> (r: bool)
        ensures
            r == pixel_at(self@, x, y),
    {
        let row = self.0[(y % Self::VIDEO_HEIGHT) as usize];
        let shift: u64 = (63 - (x % Self::VIDEO_WIDTH)) as u64;
        proof {
            assert(((row >> shift) & 1 != 0) == ((row >> shift) & 1 == 1)) by (bit_vector);
        }
        (row >> shift) & 1 != 0
    }

    /// XORs the `height`-row sprite stored at `index` onto the screen at
    /// `(x, y)`, wrapping around the edges, and reports whether a lit pixel was
    /// turned off. Rows are drawn top to bottom; a sprite byte outside memory
    /// stops the draw with a fault, the rows above it staying drawn.
    pub(crate) fn draw(&mut self, x: u8, y: u8, height: Nibble, index: Addr, memory: &Memory) -> (r: Result<bool, Fault>)
        ensures
            final(self)@ == draw_spec(old(self)@, memory@, x, y, height@, index@).0,
            r == draw_spec(old(self)@, memory@, x, y, height@, index@).1,
    {
        let height = height.get();
        let xm = x % Self::VIDEO_WIDTH;
        let ym = y % Self::VIDEO_HEIGHT;
        let base = index.get();
        // the number of sprite rows whose byte lies inside memory
        let n: usize = if base + height as usize <= 4096 {
            height as usize
        } else if base < 4096 {
            4096 - base
        } else {
            0
        };
        let ghost board0 = self@;
        let ghost mem = memory@;
        let mut collisions: u64 = 0;
        let mut i: usize = 0;
        assert(self@ =~= draw_rows(board0, mem, xm, ym, index@, 0));
        while i < n
            invariant
                0 <= i <= n <= height < 16,
                n == rows_in_memory(index@, height),
                base == index@,
                xm < 64,
                ym < 32,
                mem == memory@,
                mem.len() == 4096,
                board0.len() == 32,
                self@ == draw_rows(board0, mem, xm, ym, index@, i as int),
                (collisions != 0) == rows_collide(board0, mem, xm, ym, index@, i as int),
            decreases n - i,
        {
            let byte = memory.0[base + i];
            let row: usize = if (ym as usize) + i < 32 { ym as usize + i } else { ym as usize + i - 32 };
            let sprite = rotate_right((byte as u64) << 56, xm as u64);
            let old_row = self.0[row];
            proof {
                assert(row == (ym as int + i as int) % 32);
                assert(((row as int) - ym as int + 32) % 32 == i as int);
                assert(old_row == board0[row as int]);
                assert(sprite == sprite_row(mem[index@ as int + i as int], xm));
                let c0 = collisions;
                let v = old_row & sprite;
                assert((c0 | v != 0) == (c0 != 0 || v != 0)) by (bit_vector);
                let ni = i as int + 1;
                if v != 0 {
                    assert(board0[(ym as int + i as int) % 32] & sprite_row(mem[index@ as int + i as int], xm) != 0);
                    assert(rows_collide(board0, mem, xm, ym, index@, ni));
                }
                if rows_collide(board0, mem, xm, ym, index@, ni) {
                    let j = choose|j: int|
                        0 <= j < ni && #[trigger] (board0[(ym as int + j) % 32] & sprite_row(mem[index@ as int + j], xm)) != 0;
                    if j < i {
                        assert(rows_collide(board0, mem, xm, ym, index@, i as int));
                    }
                }
            }
            collisions = collisions | (old_row & sprite);
            self.0[row] = old_row ^ sprite;
            i = i + 1;
            assert(self@ =~= draw_rows(board0, mem, xm, ym, index@, i as int));
        }
        if n < height as usize {
            Err(Fault::Memory)
        } else {
            Ok(collisions != 0)
        }
    }
}

/// A draw whose sprite lies inside memory reports a collision exactly when
/// some sprite row (any of them, not only the last) shares a lit pixel with
/// the screen row it lands on: row `i < height`, drawn at column `x % 64`,
/// against screen row `(y % 32 + i) % 32`. In particular a single such row
/// is enough for `Ok(true)`, and with none the draw reports `Ok(false)`.
pub proof fn lemma_draw_collision_iff_overlap(board: Seq<u64>, mem: Seq<u8>, x: u8, y: u8, height: u8, index: u16)
    requires
        index + height <= 4096,
    ensures
        draw_spec(board, mem, x, y, height, index).1 == Ok::<bool, Fault>(
            exists|i: int|
                0 <= i < height && #[trigger] (board[((y % 32) as int + i) % 32] & sprite_row(
                    mem[index as int + i],
                    x % 64,
                )) != 0,
        ),
        forall|i: int|
            0 <= i < height && #[trigger] (board[((y % 32) as int + i) % 32] & sprite_row(
                mem[index as int + i],
                x % 64,
            )) != 0 ==> draw_spec(board, mem, x, y, height, index).1 == Ok::<bool, Fault>(true),
{
}

/// Drawing the same sprite at the same place twice leaves the screen as it
/// was: every drawn row is XOR-ed twice with the same bits.
pub proof fn lemma_draw_twice_restores(board: Seq<u64>, mem: Seq<u8>, x: u8, y: u8, height: u8, index: u16)
    requires
        board.len() == 32,
    ensures
        draw_spec(draw_spec(board, mem, x, y, height, index).0, mem, x, y, height, index).0 == board,
{
    let once = draw_spec(board, mem, x, y, height, index).0;
    let twice = draw_spec(once, mem, x, y, height, index).0;
    assert forall|r: int| 0 <= r < 32 implies twice[r] == board[r] by {
        let n = rows_in_memory(index, height);
        let i = (r - (y % 32) as int + 32) % 32;
        if i < n {
            let sp = sprite_row(mem[index as int + i], x % 64);
            let b = board[r];
            assert((b ^ sp) ^ sp == b) by (bit_vector);
        }
    }
    assert(twice =~= board);
}

/// Drawing onto a blank screen never reports a collision.
pub proof fn lemma_blank_screen_no_collision(mem: Seq<u8>, x: u8, y: u8, height: u8, index: u16)
    ensures
        draw_spec(Seq::new(32, |i: int| 0u64), mem, x, y, height, index).1 != Ok::<bool, Fault>(true),
{
    let blank = Seq::new(32, |i: int| 0u64);
    let n = rows_in_memory(index, height);
    assert forall|i: int| 0 <= i < n implies !((#[trigger] (blank[((y % 32) as int + i) % 32] & sprite_row(mem[index as int + i], x % 64))) != 0) by {
        let sp = sprite_row(mem[index as int + i], x % 64);
        assert(0u64 & sp == 0) by (bit_vector);
    }
}

} // verus!
