//! Seed-derived randomness: two pseudo-random stream algorithms (a legacy
//! linear-congruential generator and a 128-bit scrambled generator) behind one
//! capability contract, plus derivers that split a root seed into independent,
//! reproducible streams keyed by a string path or by block coordinates.
//!
//! Every derivation is a pure function of the deriver's value and the key, so
//! identical (seed, algorithm, path) always yields an identical stream,
//! regardless of the order of sibling derivations.

use vstd::prelude::*;
use vstd::string::StringSliceAdditionalSpecFns;

verus! {

/// 48-bit mask for the legacy linear-congruential state.
pub const LEGACY_STATE_MASK: u64 = 0xFFFF_FFFF_FFFF;

/// Multiplier of the legacy linear-congruential generator.
pub const LEGACY_MULTIPLIER: u64 = 0x5DEECE66D;

/// Increment of the legacy linear-congruential generator.
pub const LEGACY_INCREMENT: u64 = 0xB;

/// Linear-congruential pseudo-random stream (the legacy algorithm).
#[derive(Clone, Copy, PartialEq, Eq, Structural, Debug)]
pub struct LegacyRand {
    pub state: u64,
}

/// 128-bit scrambled pseudo-random stream (the modern algorithm).
#[derive(Clone, Copy, PartialEq, Eq, Structural, Debug)]
pub struct Xoroshiro {
    pub lo: u64,
    pub hi: u64,
}

/// A seeded pseudo-random stream; the algorithm is fixed when the world
/// configuration is loaded and never changes for the world's lifetime.
#[derive(Clone, Copy, PartialEq, Eq, Structural, Debug)]
pub enum RandomSource {
    Legacy(LegacyRand),
    Xoroshiro(Xoroshiro),
}

/// An immutable splitter: derives independent streams from a root seed,
/// keyed by a string path or by integer coordinates.
#[derive(Clone, Copy, PartialEq, Eq, Structural, Debug)]
pub enum RandomDeriver {
    Legacy { seed: u64 },
    Xoroshiro { lo: u64, hi: u64 },
}

/// Initial legacy state for a seed: the seed xored with the multiplier,
/// truncated to 48 bits.
pub open spec fn spec_legacy_scramble(seed: u64) -> u64 {
    (seed ^ LEGACY_MULTIPLIER) & LEGACY_STATE_MASK
}

/// One step of the legacy linear-congruential generator.
pub open spec fn spec_legacy_step(s: u64) -> u64 {
    s.wrapping_mul(LEGACY_MULTIPLIER).wrapping_add(LEGACY_INCREMENT) & LEGACY_STATE_MASK
}

/// The 32 output bits of a legacy state (its top 32 of 48 bits).
pub open spec fn spec_legacy_bits32(s: u64) -> u32 {
    (s >> 16) as u32
}

/// The 64-bit avalanche mix used to initialise the scrambled generator.
pub open spec fn spec_mix_stafford13(z: u64) -> u64 {
    let a = (z ^ (z >> 30)).wrapping_mul(0xBF58476D1CE4E5B9);
    let b = (a ^ (a >> 27)).wrapping_mul(0x94D049BB133111EB);
    b ^ (b >> 31)
}

/// The output of one draw from the scrambled generator (rotate-add form).
pub open spec fn spec_xo_output(s: Xoroshiro) -> u64 {
    let sum = s.lo.wrapping_add(s.hi);
    ((sum << 17) | (sum >> 47)).wrapping_add(s.lo)
}

/// The state after one draw from the scrambled generator.
pub open spec fn spec_xo_step(s: Xoroshiro) -> Xoroshiro {
    let x = s.hi ^ s.lo;
    Xoroshiro {
        lo: ((s.lo << 49) | (s.lo >> 15)) ^ x ^ (x << 21),
        hi: (x << 28) | (x >> 36),
    }
}

/// Scrambled-generator state for a 64-bit seed; an all-zero state is replaced
/// by fixed non-zero constants so the stream is never degenerate.
pub open spec fn spec_xo_from_seed(seed: u64) -> Xoroshiro {
    let lo0 = seed ^ 0x6A09E667F3BCC909;
    let hi0 = lo0.wrapping_add(0x9E3779B97F4A7C15);
    let lo = spec_mix_stafford13(lo0);
    let hi = spec_mix_stafford13(hi0);
    if lo == 0 && hi == 0 {
        Xoroshiro { lo: 0x9E3779B97F4A7C15, hi: 0x6A09E667F3BCC909 }
    } else {
        Xoroshiro { lo, hi }
    }
}

/// The value returned by one 64-bit draw from a stream.
pub open spec fn spec_source_output(s: RandomSource) -> u64 {
    match s {
        RandomSource::Legacy(l) => {
            let s1 = spec_legacy_step(l.state);
            let s2 = spec_legacy_step(s1);
            ((spec_legacy_bits32(s1) as u64) << 32).wrapping_add(
                spec_legacy_bits32(s2) as i32 as i64 as u64,
            )
        },
        RandomSource::Xoroshiro(x) => spec_xo_output(x),
    }
}

/// The stream's state after one 64-bit draw.
pub open spec fn spec_source_step(s: RandomSource) -> RandomSource {
    match s {
        RandomSource::Legacy(l) => RandomSource::Legacy(
            LegacyRand { state: spec_legacy_step(spec_legacy_step(l.state)) },
        ),
        RandomSource::Xoroshiro(x) => RandomSource::Xoroshiro(spec_xo_step(x)),
    }
}

/// The sequence of the first `n` 64-bit draws from a stream.
pub open spec fn spec_stream(s: RandomSource, n: nat) -> Seq<u64>
    decreases n,
{
    if n == 0 {
        Seq::empty()
    } else {
        seq![spec_source_output(s)] + spec_stream(spec_source_step(s), (n - 1) as nat)
    }
}

/// The string hash used by the legacy path split: `h = 31*h + byte` over the
/// path's UTF-8 bytes, wrapping at 32 bits.
pub open spec fn spec_java_hash(bytes: Seq<u8>) -> u32
    decreases bytes.len(),
{
    if bytes.len() == 0 {
        0
    } else {
        spec_java_hash(bytes.drop_last()).wrapping_mul(31).wrapping_add(bytes.last() as u32)
    }
}

/// The position hash used by coordinate splits: a fixed integer mixing of
/// (x, y, z) into 64 bits.
pub open spec fn spec_block_pos_hash(x: i32, y: i32, z: i32) -> u64 {
    let l0 = ((x as i64).wrapping_mul(3129871) as u64) ^ ((z as i64).wrapping_mul(116129781) as u64)
        ^ (y as i64 as u64);
    let l1 = l0.wrapping_mul(l0).wrapping_mul(42317861).wrapping_add(l0.wrapping_mul(11));
    l1 >> 16
}

/// Big-endian 64-bit value read from eight bytes of `s` starting at `off`.
pub open spec fn spec_be_u64(s: Seq<u8>, off: int) -> u64 {
    ((s[off] as u64) << 56) | ((s[off + 1] as u64) << 48) | ((s[off + 2] as u64) << 40) | ((s[off
        + 3] as u64) << 32) | ((s[off + 4] as u64) << 24) | ((s[off + 5] as u64) << 16) | ((s[off
        + 6] as u64) << 8) | (s[off + 7] as u64)
}

/// The 16-byte digest that `md5::compute` returns for the given bytes: a pure
/// function of the bytes alone, stated here only by name.
pub uninterp spec fn md5_of(data: Seq<u8>) -> Seq<u8>;

/// Relies on md5::compute (RFC 1321): the digest is 16 bytes and depends on
/// the input bytes alone.
#[verifier::external_body]
fn md5_digest(name: &str) -> (r: [u8; 16])
    ensures
        r@ == md5_of(name.spec_bytes()),
        r@.len() == 16,
{
    md5::compute(name.as_bytes()).0
}

/// The stream a deriver yields for a string path.
pub open spec fn spec_split_string(d: RandomDeriver, name_bytes: Seq<u8>) -> RandomSource {
    match d {
        RandomDeriver::Legacy { seed } => RandomSource::Legacy(
            LegacyRand {
                state: spec_legacy_scramble((spec_java_hash(name_bytes) as i32 as i64 as u64)
                    ^ seed),
            },
        ),
        RandomDeriver::Xoroshiro { lo, hi } => {
            let dg = md5_of(name_bytes);
            RandomSource::Xoroshiro(
                Xoroshiro { lo: spec_be_u64(dg, 0) ^ lo, hi: spec_be_u64(dg, 8) ^ hi },
            )
        },
    }
}

/// The stream a deriver yields for integer coordinates.
pub open spec fn spec_split_pos(d: RandomDeriver, x: i32, y: i32, z: i32) -> RandomSource {
    match d {
        RandomDeriver::Legacy { seed } => RandomSource::Legacy(
            LegacyRand { state: spec_legacy_scramble(spec_block_pos_hash(x, y, z) ^ seed) },
        ),
        RandomDeriver::Xoroshiro { lo, hi } => RandomSource::Xoroshiro(
            Xoroshiro { lo: spec_block_pos_hash(x, y, z) ^ lo, hi },
        ),
    }
}

/// The deriver a stream yields when split further (value part).
pub open spec fn spec_next_splitter_value(s: RandomSource) -> RandomDeriver {
    match s {
        RandomSource::Legacy(_) => RandomDeriver::Legacy { seed: spec_source_output(s) },
        RandomSource::Xoroshiro(_) => RandomDeriver::Xoroshiro {
            lo: spec_source_output(s),
            hi: spec_source_output(spec_source_step(s)),
        },
    }
}

/// The stream's state after yielding a splitter.
pub open spec fn spec_next_splitter_state(s: RandomSource) -> RandomSource {
    match s {
        RandomSource::Legacy(_) => spec_source_step(s),
        RandomSource::Xoroshiro(_) => spec_source_step(spec_source_step(s)),
    }
}

/// The string hash used by the legacy path split, over the path's UTF-8 bytes.
pub fn java_string_hash(s: &str) -> (r: u32)
    ensures
        r == spec_java_hash(s.spec_bytes()),
{
    let bytes: &[u8] = s.as_bytes();
    let n: usize = bytes.len();
    let mut h: u32 = 0;
    let mut i: usize = 0;
    while i < n
        invariant
            n == bytes@.len(),
            bytes@ == s.spec_bytes(),
            0 <= i <= n,
            h == spec_java_hash(bytes@.subrange(0, i as int)),
        decreases n - i,
    {
        let b = bytes[i];
        h = h.wrapping_mul(31).wrapping_add(b as u32);
        proof {
            let pre = bytes@.subrange(0, i + 1);
            assert(pre.drop_last() =~= bytes@.subrange(0, i as int));
            assert(pre.last() == bytes@[i as int]);
        }
        i = i + 1;
    }
    proof {
        assert(bytes@.subrange(0, n as int) =~= bytes@);
    }
    h
}

impl LegacyRand {
    /// A legacy stream seeded as the legacy algorithm prescribes.
    pub fn from_seed(seed: u64) -> (r: LegacyRand)
        ensures
            r.state == spec_legacy_scramble(seed),
    {
        LegacyRand { state: (seed ^ LEGACY_MULTIPLIER) & LEGACY_STATE_MASK }
    }
}

impl Xoroshiro {
    /// A scrambled stream seeded as the modern algorithm prescribes.
    pub fn from_seed(seed: u64) -> (r: Xoroshiro)
        ensures
            r == spec_xo_from_seed(seed),
    {
        let lo0 = seed ^ 0x6A09E667F3BCC909;
        let hi0 = lo0.wrapping_add(0x9E3779B97F4A7C15);
        let lo = Self::mix_stafford13(lo0);
        let hi = Self::mix_stafford13(hi0);
        if lo == 0 && hi == 0 {
            Xoroshiro { lo: 0x9E3779B97F4A7C15, hi: 0x6A09E667F3BCC909 }
        } else {
            Xoroshiro { lo, hi }
        }
    }

    /// The 64-bit avalanche mix used during seeding.
    pub fn mix_stafford13(z: u64) -> (r: u64)
        ensures
            r == spec_mix_stafford13(z),
    {
        let a = (z ^ (z >> 30)).wrapping_mul(0xBF58476D1CE4E5B9);
        let b = (a ^ (a >> 27)).wrapping_mul(0x94D049BB133111EB);
        b ^ (b >> 31)
    }
}

impl RandomSource {
    /// One 64-bit draw; advances the stream.
    pub fn next_u64(&mut self) -> (r: u64)
        ensures
            r == spec_source_output(*old(self)),
            *final(self) == spec_source_step(*old(self)),
    {
        match self {
            RandomSource::Legacy(l) => {
                let s1 = l.state.wrapping_mul(LEGACY_MULTIPLIER).wrapping_add(LEGACY_INCREMENT)
                    & LEGACY_STATE_MASK;
                let s2 = s1.wrapping_mul(LEGACY_MULTIPLIER).wrapping_add(LEGACY_INCREMENT)
                    & LEGACY_STATE_MASK;
                l.state = s2;
                (((s1 >> 16) as u32 as u64) << 32).wrapping_add(
                    (s2 >> 16) as u32 as i32 as i64 as u64,
                )
            },
            RandomSource::Xoroshiro(x) => {
                let sum = x.lo.wrapping_add(x.hi);
                let out = ((sum << 17) | (sum >> 47)).wrapping_add(x.lo);
                let t = x.hi ^ x.lo;
                let new_lo = ((x.lo << 49) | (x.lo >> 15)) ^ t ^ (t << 21);
                let new_hi = (t << 28) | (t >> 36);
                x.lo = new_lo;
                x.hi = new_hi;
                out
            },
        }
    }

    /// One 32-bit draw: the top 32 bits of a 64-bit draw.
    pub fn next_u32(&mut self) -> (r: u32)
        ensures
            r == (spec_source_output(*old(self)) >> 32) as u32,
            *final(self) == spec_source_step(*old(self)),
    {
        let v = self.next_u64();
        (v >> 32) as u32
    }

    /// A draw reduced below `bound` by the Euclidean remainder.
    pub fn next_bounded_u32(&mut self, bound: u32) -> (r: u32)
        requires
            bound > 0,
        ensures
            r == (spec_source_output(*old(self)) % (bound as u64)) as u32,
            r < bound,
            *final(self) == spec_source_step(*old(self)),
    {
        let v = self.next_u64();
        (v % (bound as u64)) as u32
    }

    /// A deriver drawn from this stream, for further independent splits.
    pub fn next_splitter(&mut self) -> (r: RandomDeriver)
        ensures
            r == spec_next_splitter_value(*old(self)),
            *final(self) == spec_next_splitter_state(*old(self)),
    {
        match *self {
            RandomSource::Legacy(_) => {
                let seed = self.next_u64();
                RandomDeriver::Legacy { seed }
            },
            RandomSource::Xoroshiro(_) => {
                let lo = self.next_u64();
                let hi = self.next_u64();
                RandomDeriver::Xoroshiro { lo, hi }
            },
        }
    }
}

impl RandomDeriver {
    /// The stream for a string path: a pure function of (deriver, path).
    pub fn split_string(&self, name: &str) -> (r: RandomSource)
        ensures
            r == spec_split_string(*self, name.spec_bytes()),
    {
        match *self {
            RandomDeriver::Legacy { seed } => {
                let h = java_string_hash(name);
                RandomSource::Legacy(LegacyRand::from_seed((h as i32 as i64 as u64) ^ seed))
            },
            RandomDeriver::Xoroshiro { lo, hi } => {
                let dg = md5_digest(name);
                let dlo = be_u64_of(&dg, 0);
                let dhi = be_u64_of(&dg, 8);
                RandomSource::Xoroshiro(Xoroshiro { lo: dlo ^ lo, hi: dhi ^ hi })
            },
        }
    }

    /// The stream for integer coordinates: a pure function of (deriver, x, y, z).
    pub fn split(&self, x: i32, y: i32, z: i32) -> (r: RandomSource)
        ensures
            r == spec_split_pos(*self, x, y, z),
    {
        let pos = block_pos_hash(x, y, z);
        match *self {
            RandomDeriver::Legacy { seed } => RandomSource::Legacy(
                LegacyRand::from_seed(pos ^ seed),
            ),
            RandomDeriver::Xoroshiro { lo, hi } => RandomSource::Xoroshiro(
                Xoroshiro { lo: pos ^ lo, hi },
            ),
        }
    }
}

/// Big-endian 64-bit value read from eight bytes of a 16-byte digest.
pub fn be_u64_of(d: &[u8; 16], off: usize) -> (r: u64)
    requires
        off + 8 <= 16,
    ensures
        r == spec_be_u64(d@, off as int),
{
    ((d[off] as u64) << 56) | ((d[off + 1] as u64) << 48) | ((d[off + 2] as u64) << 40) | ((d[off
        + 3] as u64) << 32) | ((d[off + 4] as u64) << 24) | ((d[off + 5] as u64) << 16) | ((d[off
        + 6] as u64) << 8) | (d[off + 7] as u64)
}

/// The position hash used by coordinate splits.
pub fn block_pos_hash(x: i32, y: i32, z: i32) -> (r: u64)
    ensures
        r == spec_block_pos_hash(x, y, z),
{
    let l0 = ((x as i64).wrapping_mul(3129871) as u64) ^ ((z as i64).wrapping_mul(116129781)
        as u64) ^ (y as i64 as u64);
    let l1 = l0.wrapping_mul(l0).wrapping_mul(42317861).wrapping_add(l0.wrapping_mul(11));
    l1 >> 16
}

/// Law: the stream derived for a path depends on the deriver's value and the
/// path alone. Deriving any other path first cannot change it, because a
/// deriver is an immutable value: two equal derivers yield equal streams,
/// draw for draw.
pub proof fn lemma_split_string_path_independent(
    d1: RandomDeriver,
    d2: RandomDeriver,
    name_bytes: Seq<u8>,
    n: nat,
)
    requires
        d1 == d2,
    ensures
        spec_stream(spec_split_string(d1, name_bytes), n) == spec_stream(
            spec_split_string(d2, name_bytes),
            n,
        ),
{
}

} // verus!
