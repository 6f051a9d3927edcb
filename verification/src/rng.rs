use vstd::prelude::*;

verus! {

/// The 128-bit state a `Seeder` fills in.
pub type Seed = [u32; 4];

/// A source of initial randomness for the emulator's generator.
pub trait Seeder {
    /// Whether this seeder says which seed it writes (`seed_value`); one
    /// that says nothing makes no promise.
    open spec fn obeys_seed_spec() -> bool {
        false
    }

    /// The seed this seeder writes.
    open spec fn seed_value(&self) -> Seq<u32> {
        Seq::empty()
    }

    /// Writes a seed over `seed`, whatever `seed` held.
    fn seed(self, seed: &mut Seed)
        ensures
            Self::obeys_seed_spec() ==> final(seed)@ == self.seed_value(),
    ;
}

/// A seed is its own seeder: it writes itself.
impl Seeder for Seed {
    open spec fn obeys_seed_spec() -> bool {
        true
    }

    open spec fn seed_value(&self) -> Seq<u32> {
        self@
    }

    fn seed(self, seed: &mut Seed) {
        *seed = self;
    }
}

/// `x` rotated left by `k` bits, for `0 < k < 32`.
pub open spec fn rotl32(x: u32, k: u32) -> u32 {
    (x << k) | (x >> ((32 - k) as u32))
}

/// `a + b` modulo `2^32`.
pub open spec fn add32(a: u32, b: u32) -> u32 {
    ((a as int + b as int) % 0x1_0000_0000) as u32
}

/// The number xoshiro128++ outputs from state `s`.
pub open spec fn xoshiro_output(s: Seq<u32>) -> u32 {
    add32(rotl32(add32(s[0], s[3]), 7), s[0])
}

/// The xoshiro128++ state that follows `s`.
pub open spec fn xoshiro_next(s: Seq<u32>) -> Seq<u32> {
    let t = s[1] << 9u32;
    let s2 = s[2] ^ s[0];
    let s3 = s[3] ^ s[1];
    let s1 = s[1] ^ s2;
    let s0 = s[0] ^ s3;
    seq![s0, s1, s2 ^ t, rotl32(s3, 11)]
}

fn rotate_left(x: u32, k: u32) -> (r: u32)
    requires
        0 < k < 32,
    ensures
        r == rotl32(x, k),
{
    (x << k) | (x >> (32 - k))
}

fn add_wrapping(a: u32, b: u32) -> (r: u32)
    ensures
        r == add32(a, b),
{
    a.wrapping_add(b)
}

/// The emulator's random number generator: xoshiro128++.
#[derive(Clone)]
pub struct SimpleRng(pub(crate) Seed);

impl View for SimpleRng {
    type V = Seq<u32>;

    closed spec fn view(&self) -> Seq<u32> {
        self.0@
    }
}

impl SimpleRng {
    /// The generator with state `seed`.
    pub fn from_seed(seed: Seed) -> (r: Self)
        ensures
            r@ == seed@,
    {
        SimpleRng(seed)
    }

    /// Replaces the state with the seed `seeder` writes.
    pub fn reseed<S: Seeder>(&mut self, seeder: S)
        ensures
            final(self)@.len() == 4,
            S::obeys_seed_spec() ==> final(self)@ == seeder.seed_value(),
    {
        seeder.seed(&mut self.0);
    }

    /// The next 32-bit output, advancing the state.
    pub fn next_u32(&mut self) -> (r: u32)
        ensures
            r == xoshiro_output(old(self)@),
            final(self)@ == xoshiro_next(old(self)@),
    {
        let s0 = self.0[0];
        let s1 = self.0[1];
        let s2 = self.0[2];
        let s3 = self.0[3];
        let res = add_wrapping(rotate_left(add_wrapping(s0, s3), 7), s0);
        let t = s1 << 9;
        let n2 = s2 ^ s0;
        let n3 = s3 ^ s1;
        let n1 = s1 ^ n2;
        let n0 = s0 ^ n3;
        let n2 = n2 ^ t;
        let n3 = rotate_left(n3, 11);
        self.0 = [n0, n1, n2, n3];
        assert(self@ =~= xoshiro_next(old(self)@));
        res
    }

    /// The low byte of the next 32-bit output.
    pub fn next_u8(&mut self) -> (r: u8)
        ensures
            r == xoshiro_output(old(self)@) % 256,
            final(self)@ == xoshiro_next(old(self)@),
    {
        let v = self.next_u32();
        proof {
            assert(v as u8 == v % 256) by (bit_vector);
        }
        v as u8
    }
}

} // verus!
