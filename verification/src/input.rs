use vstd::prelude::*;
use vstd::string::StringExecFns;
use vstd::std_specs::bits::u16_leading_zeros;
use crate::Fault;
use crate::niche_opt::Nibble;

verus! {

/// The label printed on keypad key number `i` (keys are numbered row by row
/// on the 4×4 keypad `1 2 3 C / 4 5 6 D / 7 8 9 E / A 0 B F`).
pub open spec fn keypad_label(i: u8) -> char {
    if i == 0 { '1' }
    else if i == 1 { '2' }
    else if i == 2 { '3' }
    else if i == 3 { 'C' }
    else if i == 4 { '4' }
    else if i == 5 { '5' }
    else if i == 6 { '6' }
    else if i == 7 { 'D' }
    else if i == 8 { '7' }
    else if i == 9 { '8' }
    else if i == 10 { '9' }
    else if i == 11 { 'E' }
    else if i == 12 { 'A' }
    else if i == 13 { '0' }
    else if i == 14 { 'B' }
    else { 'F' }
}

/// The hexadecimal value of keypad key number `i`: the digit printed on it.
pub open spec fn key_value(i: u8) -> u8 {
    if i == 0 { 1u8 }
    else if i == 1 { 2u8 }
    else if i == 2 { 3u8 }
    else if i == 3 { 12u8 }
    else if i == 4 { 4u8 }
    else if i == 5 { 5u8 }
    else if i == 6 { 6u8 }
    else if i == 7 { 13u8 }
    else if i == 8 { 7u8 }
    else if i == 9 { 8u8 }
    else if i == 10 { 9u8 }
    else if i == 11 { 14u8 }
    else if i == 12 { 10u8 }
    else if i == 13 { 0u8 }
    else if i == 14 { 11u8 }
    else { 15u8 }
}

/// The number of the keypad key whose value is `v` (for `v < 16`).
pub open spec fn key_of_value(v: u8) -> u8 {
    if v == 0 { 13u8 }
    else if v == 1 { 0u8 }
    else if v == 2 { 1u8 }
    else if v == 3 { 2u8 }
    else if v == 4 { 4u8 }
    else if v == 5 { 5u8 }
    else if v == 6 { 6u8 }
    else if v == 7 { 8u8 }
    else if v == 8 { 9u8 }
    else if v == 9 { 10u8 }
    else if v == 10 { 12u8 }
    else if v == 11 { 14u8 }
    else if v == 12 { 3u8 }
    else if v == 13 { 7u8 }
    else if v == 14 { 11u8 }
    else { 15u8 }
}

/// The lowest-numbered key held in `state` among keys `i..16`; 16 when none is.
pub open spec fn first_held_from(state: u16, i: int) -> int
    decreases 16 - i,
{
    if i >= 16 {
        16
    } else if key_held(state, i as u8) {
        i
    } else {
        first_held_from(state, i + 1)
    }
}

/// The lowest-numbered key held in `state`; 16 when none is.
pub open spec fn first_held(state: u16) -> int {
    first_held_from(state, 0)
}

/// Whether key number `i` is held in the key bitmap `state`: key `i` is bit `i`.
pub open spec fn key_held(state: u16, i: u8) -> bool {
    (state >> (i as u16)) & 1 == 1
}

/// The key bitmap as sixteen binary digits, key 15 first.
pub open spec fn binary_digits(state: u16) -> Seq<char> {
    Seq::new(16, |i: int| if key_held(state, (15 - i) as u8) { '1' } else { '0' })
}

/// The bit of key number `i` in a key bitmap.
pub open spec fn key_mask(i: u8) -> u16 {
    (1u16 << (i as u16)) as u16
}

/// One of the sixteen keys of the keypad, by its position `0..=15`.
#[derive(Debug, Copy, Clone, PartialEq, Eq, Structural)]
pub struct InputIndex(pub(crate) Nibble);

impl View for InputIndex {
    type V = u8;

    closed spec fn view(&self) -> u8 {
        self.0@
    }
}

impl InputIndex {
    pub const TOTAL_INDICES: usize = 16;

    /// The key labelled `0`.
    pub fn _0() -> (r: Self)
        ensures
            r@ == key_of_value(0),
            key_value(r@) == 0,
    {
        let r = Self(Nibble(13));
        assert(r@ == 13);
        r
    }

    /// The key labelled `1`.
    pub fn _1() -> (r: Self)
        ensures
            r@ == key_of_value(1),
            key_value(r@) == 1,
    {
        let r = Self(Nibble(0));
        assert(r@ == 0);
        r
    }

    /// The key labelled `2`.
    pub fn _2() -> (r: Self)
        ensures
            r@ == key_of_value(2),
            key_value(r@) == 2,
    {
        let r = Self(Nibble(1));
        assert(r@ == 1);
        r
    }

    /// The key labelled `3`.
    pub fn _3() -> (r: Self)
        ensures
            r@ == key_of_value(3),
            key_value(r@) == 3,
    {
        let r = Self(Nibble(2));
        assert(r@ == 2);
        r
    }

    /// The key labelled `4`.
    pub fn _4() -> (r: Self)
        ensures
            r@ == key_of_value(4),
            key_value(r@) == 4,
    {
        let r = Self(Nibble(4));
        assert(r@ == 4);
        r
    }

    /// The key labelled `5`.
    pub fn _5() -> (r: Self)
        ensures
            r@ == key_of_value(5),
            key_value(r@) == 5,
    {
        let r = Self(Nibble(5));
        assert(r@ == 5);
        r
    }

    /// The key labelled `6`.
    pub fn _6() -> (r: Self)
        ensures
            r@ == key_of_value(6),
            key_value(r@) == 6,
    {
        let r = Self(Nibble(6));
        assert(r@ == 6);
        r
    }

    /// The key labelled `7`.
    pub fn _7() -> (r: Self)
        ensures
            r@ == key_of_value(7),
            key_value(r@) == 7,
    {
        let r = Self(Nibble(8));
        assert(r@ == 8);
        r
    }

    /// The key labelled `8`.
    pub fn _8() -> (r: Self)
        ensures
            r@ == key_of_value(8),
            key_value(r@) == 8,
    {
        let r = Self(Nibble(9));
        assert(r@ == 9);
        r
    }

    /// The key labelled `9`.
    pub fn _9() -> (r: Self)
        ensures
            r@ == key_of_value(9),
            key_value(r@) == 9,
    {
        let r = Self(Nibble(10));
        assert(r@ == 10);
        r
    }

    /// The key labelled `A`.
    #[allow(non_snake_case)]
    pub fn _A() -> (r: Self)
        ensures
            r@ == key_of_value(10),
            key_value(r@) == 10,
    {
        let r = Self(Nibble(12));
        assert(r@ == 12);
        r
    }

    /// The key labelled `B`.
    #[allow(non_snake_case)]
    pub fn _B() -> (r: Self)
        ensures
            r@ == key_of_value(11),
            key_value(r@) == 11,
    {
        let r = Self(Nibble(14));
        assert(r@ == 14);
        r
    }

    /// The key labelled `C`.
    #[allow(non_snake_case)]
    pub fn _C() -> (r: Self)
        ensures
            r@ == key_of_value(12),
            key_value(r@) == 12,
    {
        let r = Self(Nibble(3));
        assert(r@ == 3);
        r
    }

    /// The key labelled `D`.
    #[allow(non_snake_case)]
    pub fn _D() -> (r: Self)
        ensures
            r@ == key_of_value(13),
            key_value(r@) == 13,
    {
        let r = Self(Nibble(7));
        assert(r@ == 7);
        r
    }

    /// The key labelled `E`.
    #[allow(non_snake_case)]
    pub fn _E() -> (r: Self)
        ensures
            r@ == key_of_value(14),
            key_value(r@) == 14,
    {
        let r = Self(Nibble(11));
        assert(r@ == 11);
        r
    }

    /// The key labelled `F`.
    #[allow(non_snake_case)]
    pub fn _F() -> (r: Self)
        ensures
            r@ == key_of_value(15),
            key_value(r@) == 15,
    {
        let r = Self(Nibble(15));
        assert(r@ == 15);
        r
    }

    /// The key at position `index`, if there is one.
    pub fn from_usize(index: usize) -> (r: Option<Self>)
        ensures
            index < 16 <==> r is Some,
            r matches Some(k) ==> k@ == index,
    {
        if index > 255 {
            return None;
        }
        match Nibble::new(index as u8) {
            Some(n) => {
                let r = Self(n);
                assert(r@ == n@);
                Some(r)
            },
            None => None,
        }
    }

    /// The key's position.
    pub fn as_usize(self) -> (r: usize)
        ensures
            r == self@,
            r < 16,
    {
        self.0.get() as usize
    }

    /// The label printed on the key.
    pub fn as_char(self) -> (r: char)
        ensures
            r == keypad_label(self@),
    {
        let v = self.0.get();
        if v == 0 { '1' }
        else if v == 1 { '2' }
        else if v == 2 { '3' }
        else if v == 3 { 'C' }
        else if v == 4 { '4' }
        else if v == 5 { '5' }
        else if v == 6 { '6' }
        else if v == 7 { 'D' }
        else if v == 8 { '7' }
        else if v == 9 { '8' }
        else if v == 10 { '9' }
        else if v == 11 { 'E' }
        else if v == 12 { 'A' }
        else if v == 13 { '0' }
        else if v == 14 { 'B' }
        else { 'F' }
    }

    /// All sixteen keys, in position order.
    pub fn all_iter() -> (r: Vec<Self>)
        ensures
            r@.len() == 16,
            forall|i: int| 0 <= i < 16 ==> (#[trigger] r@[i])@ == i,
    {
        let mut r: Vec<Self> = Vec::new();
        let mut i: u8 = 0;
        while i < 16
            invariant
                i <= 16,
                r@.len() == i,
                forall|j: int| 0 <= j < i ==> (#[trigger] r@[j])@ == j,
            decreases 16 - i,
        {
            let k = Self(Nibble(i));
            assert(k@ == i);
            r.push(k);
            i = i + 1;
        }
        r
    }

    /// The key whose value is `v`; a fault when `v` is not a hexadecimal digit.
    pub fn from_value(v: u8) -> (r: Result<Self, Fault>)
        ensures
            v < 16 <==> r is Ok,
            r matches Ok(k) ==> k@ == key_of_value(v),
            r is Err ==> r == Err::<Self, Fault>(Fault::InvalidInputIndex),
    {
        if v >= 16 {
            return Err(Fault::InvalidInputIndex);
        }
        let i: u8 = if v == 0 { 13 }
            else if v == 1 { 0 }
            else if v == 2 { 1 }
            else if v == 3 { 2 }
            else if v == 4 { 4 }
            else if v == 5 { 5 }
            else if v == 6 { 6 }
            else if v == 7 { 8 }
            else if v == 8 { 9 }
            else if v == 9 { 10 }
            else if v == 10 { 12 }
            else if v == 11 { 14 }
            else if v == 12 { 3 }
            else if v == 13 { 7 }
            else if v == 14 { 11 }
            else { 15 };
        let k = Self(Nibble(i));
        assert(k@ == i);
        Ok(k)
    }

    /// The key's value: the hexadecimal digit printed on it.
    pub fn value(self) -> (r: u8)
        ensures
            r == key_value(self@),
            r < 16,
    {
        let i = self.0.get();
        if i == 0 { 1 }
        else if i == 1 { 2 }
        else if i == 2 { 3 }
        else if i == 3 { 0xC }
        else if i == 4 { 4 }
        else if i == 5 { 5 }
        else if i == 6 { 6 }
        else if i == 7 { 0xD }
        else if i == 8 { 7 }
        else if i == 9 { 8 }
        else if i == 10 { 9 }
        else if i == 11 { 0xE }
        else if i == 12 { 0xA }
        else if i == 13 { 0 }
        else if i == 14 { 0xB }
        else { 0xF }
    }

    pub(crate) fn get(self) -> (r: Nibble)
        ensures
            r@ == self@,
    {
        self.0
    }

    /// The key's bit in a key bitmap.
    pub(crate) fn mask(self) -> (r: u16)
        ensures
            r == key_mask(self@),
            self@ < 16,
    {
        let v = self.0.get();
        1u16 << (v as u16)
    }
}

/// Which of the sixteen keys are held: key `i` is bit `i` of the view.
#[derive(Clone, PartialEq, Eq, Structural)]
pub struct InputState(pub(crate) u16);

impl View for InputState {
    type V = u16;

    closed spec fn view(&self) -> u16 {
        self.0
    }
}

impl Default for InputState {
    fn default() -> (r: Self)
        ensures
            r@ == 0,
    {
        Self::new()
    }
}

impl InputState {
    /// No key held.
    pub fn new() -> (r: Self)
        ensures
            r@ == 0,
    {
        Self(0)
    }

    /// The lowest-numbered key held, or `None` when no key is held.
    pub(crate) fn find_first_keypress(self) -> (r: Option<InputIndex>)
        ensures
            self@ == 0 <==> r is None,
            r matches Some(k) ==> k@ == first_held(self@) && key_held(self@, k@),
    {
        let mut i: u8 = 0;
        while i < 16
            invariant
                i <= 16,
                first_held(self@) == first_held_from(self@, i as int),
            decreases 16 - i,
        {
            let held = (self.0 >> (i as u16)) & 1 == 1;
            if held {
                let k = InputIndex(Nibble(i));
                assert(k@ == i);
                proof {
                    lemma_any_iff_some_key_held(self@);
                }
                return Some(k);
            }
            i = i + 1;
        }
        proof {
            assert(first_held(self@) == 16);
            lemma_first_held_none(self@);
        }
        None
    }

    /// Whether the key is held.
    pub fn check(self, index: InputIndex) -> (r: bool)
        ensures
            r == key_held(self@, index@),
    {
        let m = index.mask();
        let s = self.0;
        let ghost i = index@;
        proof {
            assert(i < 16 ==> ((s & ((1u16 << (i as u16)) as u16)) != 0) == ((s >> (i as u16)) & 1 == 1))
                by (bit_vector);
        }
        (self.0 & m) != 0
    }

    /// These keys with `index` held as well.
    pub fn with_set(self, index: InputIndex) -> (r: Self)
        ensures
            r@ == self@ | key_mask(index@),
    {
        Self(self.0 | index.mask())
    }

    /// Marks the key as held.
    pub fn set(&mut self, index: InputIndex)
        ensures
            final(self)@ == old(self)@ | key_mask(index@),
    {
        *self = self.copy().with_set(index);
    }

    /// These keys with `index` released.
    pub fn with_unset(self, index: InputIndex) -> (r: Self)
        ensures
            r@ == self@ & !key_mask(index@),
    {
        Self(self.0 & !index.mask())
    }

    /// Marks the key as released.
    pub fn unset(&mut self, index: InputIndex)
        ensures
            final(self)@ == old(self)@ & !key_mask(index@),
    {
        *self = self.copy().with_unset(index);
    }

    /// These keys with `index` flipped.
    pub fn with_toggled(self, index: InputIndex) -> (r: Self)
        ensures
            r@ == self@ ^ key_mask(index@),
    {
        Self(self.0 ^ index.mask())
    }

    /// Flips the key between held and released.
    pub fn toggle(&mut self, index: InputIndex)
        ensures
            final(self)@ == old(self)@ ^ key_mask(index@),
    {
        *self = self.copy().with_toggled(index);
    }

    /// A copy of these keys (the type is a plain bitmap).
    pub fn copy(&self) -> (r: Self)
        ensures
            r@ == self@,
    {
        Self(self.0)
    }

    /// The key bitmap.
    pub fn bits(&self) -> (r: u16)
        ensures
            r == self@,
    {
        self.0
    }

    /// The keys of a key bitmap.
    pub fn from_bits(bits: u16) -> (r: Self)
        ensures
            r@ == bits,
    {
        Self(bits)
    }

    /// The sixteen keys as binary digits, key 15 first: `1` for a held key.
    pub fn to_string(&self) -> (r: String)
        ensures
            r@ == binary_digits(self@),
    {
        let mut s = String::new();
        let mut i: u16 = 0;
        while i < 16
            invariant
                i <= 16,
                s@ == binary_digits(self@).take(i as int),
            decreases 16 - i,
        {
            let held = (self.0 >> (15 - i)) & 1 == 1;
            proof {
                reveal_strlit("1");
                reveal_strlit("0");
                assert(binary_digits(self@).take(i + 1) =~= binary_digits(self@).take(i as int).push(
                    if held { '1' } else { '0' },
                ));
            }
            if held {
                s.append("1");
            } else {
                s.append("0");
            }
            i = i + 1;
        }
        assert(binary_digits(self@).take(16) =~= binary_digits(self@));
        s
    }

    /// Whether any key is held.
    pub fn any(self) -> (r: bool)
        ensures
            r == (self@ != 0),
    {
        self.0 != 0
    }
}

/// Two keypad keys in the same position are the same key.
pub(crate) proof fn lemma_input_index_view_injective(i: InputIndex, j: InputIndex)
    requires
        i@ == j@,
    ensures
        i == j,
{
}

/// Holding key `i` holds exactly `i` on top of the keys already held.
pub proof fn lemma_set_holds_key(state: u16, i: u8, j: u8)
    requires
        i < 16,
        j < 16,
    ensures
        key_held(state | key_mask(i), j) == (i == j || key_held(state, j)),
{
    assert(i < 16 && j < 16 ==> (((state | ((1u16 << (i as u16)) as u16)) >> (j as u16)) & 1 == 1) == (i
        == j || (state >> (j as u16)) & 1 == 1)) by (bit_vector);
}

/// Releasing key `i` releases exactly `i`, leaving the other keys as they were.
pub proof fn lemma_unset_releases_key(state: u16, i: u8, j: u8)
    requires
        i < 16,
        j < 16,
    ensures
        key_held(state & !key_mask(i), j) == (i != j && key_held(state, j)),
{
    assert(i < 16 && j < 16 ==> (((state & !((1u16 << (i as u16)) as u16)) >> (j as u16)) & 1 == 1) == (i
        != j && (state >> (j as u16)) & 1 == 1)) by (bit_vector);
}

/// Toggling key `i` flips exactly `i`, and toggling it twice changes nothing.
pub proof fn lemma_toggle_flips_key(state: u16, i: u8, j: u8)
    requires
        i < 16,
        j < 16,
    ensures
        key_held(state ^ key_mask(i), j) == (if i == j { !key_held(state, j) } else { key_held(state, j) }),
        (state ^ key_mask(i)) ^ key_mask(i) == state,
{
    assert(i < 16 && j < 16 ==> (((state ^ ((1u16 << (i as u16)) as u16)) >> (j as u16)) & 1 == 1) == (if i
        == j { !((state >> (j as u16)) & 1 == 1) } else { (state >> (j as u16)) & 1 == 1 })) by (bit_vector);
    assert((state ^ ((1u16 << (i as u16)) as u16)) ^ ((1u16 << (i as u16)) as u16) == state) by (bit_vector);
}

/// Some key is held exactly when the bitmap is not zero.
pub proof fn lemma_any_iff_some_key_held(state: u16)
    ensures
        (state != 0) == (exists|j: u8| j < 16 && #[trigger] key_held(state, j)),
{
    if state != 0 {
        let j = most_significant_held_key(state);
        assert(key_held(state, j));
    } else {
        assert forall|j: u8| j < 16 implies !#[trigger] key_held(state, j) by {
            assert(state == 0 ==> (state >> (j as u16)) & 1 == 0) by (bit_vector);
        }
    }
}

/// The lowest held key is held, and no key below it is; it is 16 exactly when
/// no key is held.
pub proof fn lemma_first_held(state: u16)
    ensures
        0 <= first_held(state) <= 16,
        first_held(state) < 16 ==> key_held(state, first_held(state) as u8),
        forall|j: u8| j < first_held(state) && j < 16 ==> !#[trigger] key_held(state, j),
        (first_held(state) == 16) == (state == 0),
{
    lemma_first_held_from(state, 0);
    lemma_first_held_none(state);
}

proof fn lemma_first_held_from(state: u16, i: int)
    requires
        0 <= i <= 16,
    ensures
        i <= first_held_from(state, i) <= 16,
        first_held_from(state, i) < 16 ==> key_held(state, first_held_from(state, i) as u8),
        forall|j: u8| i <= j < first_held_from(state, i) && j < 16 ==> !#[trigger] key_held(state, j),
    decreases 16 - i,
{
    if i < 16 && !key_held(state, i as u8) {
        lemma_first_held_from(state, i + 1);
    }
}

/// No key is held exactly when the lowest held key is 16.
proof fn lemma_first_held_none(state: u16)
    ensures
        (first_held(state) == 16) == (state == 0),
{
    lemma_first_held_from(state, 0);
    lemma_any_iff_some_key_held(state);
    if state != 0 {
        let j = choose|j: u8| j < 16 && #[trigger] key_held(state, j);
        assert(!(j < first_held(state) && j < 16) || !key_held(state, j));
    }
}

/// The key that instructions find by value is the key labelled with that
/// value: for `v < 16`, the label of key `key_of_value(v)` is the hexadecimal
/// digit of `v` (`0`..`9`, then `A`..`F`), and `key_value` reads the label back.
pub proof fn lemma_key_value_is_label(v: u8, i: u8)
    ensures
        v < 16 ==> keypad_label(key_of_value(v)) == (if v < 10 { (48 + v) as char } else { (55 + v) as char }),
        i < 16 ==> keypad_label(i) == (if key_value(i) < 10 { (48 + key_value(i)) as char } else { (55 + key_value(i)) as char }),
{
}

/// Key values and key numbers correspond one to one.
pub proof fn lemma_key_value_round_trip(i: u8, v: u8)
    ensures
        i < 16 ==> key_value(i) < 16 && key_of_value(key_value(i)) == i,
        v < 16 ==> key_of_value(v) < 16 && key_value(key_of_value(v)) == v,
{
}

/// A key held in a non-empty bitmap: the most significant one.
proof fn most_significant_held_key(state: u16) -> (j: u8)
    requires
        state != 0,
    ensures
        j < 16,
        key_held(state, j),
        j == 15 - u16_leading_zeros(state),
{
    vstd::std_specs::bits::axiom_u16_leading_zeros(state);
    let lz = u16_leading_zeros(state);
    let j = (15 - lz) as u16;
    assert((state >> j) & 1u16 != 0u16);
    assert(j < 16 ==> ((state >> j) & 1u16 != 0u16) == ((state >> j) & 1 == 1)) by (bit_vector);
    j as u8
}

} // verus!
