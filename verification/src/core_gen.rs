//! The deterministic core generator.
//!
//! The thread cache needs *some* seedable generator to wrap; this module
//! supplies a small one whose entire behaviour is captured by specification
//! functions, so that every byte a wrapper hands out can be traced back to
//! the seed it was produced from.  The mixing step is deliberately simple:
//! the point of this crate is the caching and reseeding discipline around
//! the generator, not the generator itself, and the wrapper accepts any
//! future core with the same contract shape.

use vstd::prelude::*;

verus! {

/// A seedable deterministic generator: a fixed key and a running counter.
///
/// Every output byte is a function of `key` and `ctr` alone, and each byte
/// produced advances `ctr` by one (wrapping), so the generator walks a
/// completely determined stream from the moment it is seeded.
#[derive(Clone, Copy, PartialEq, Eq, Structural, Debug)]
pub struct Core {
    /// The seed this generator was last (re)seeded with.
    pub key: u64,
    /// How far along the seed's stream the generator has walked.
    pub ctr: u64,
}

/// The word the generator derives from a key and a counter position.
pub open spec fn mix(key: u64, ctr: u64) -> u64 {
    (key ^ ctr) ^ ((key ^ ctr) >> 29)
}

/// The output byte at state `c`: the low eight bits of the mixed word.
pub open spec fn byte_of(c: Core) -> u8 {
    (mix(c.key, c.ctr) & 0xff) as u8
}

/// The counter after one byte has been produced (wrapping at the top).
pub open spec fn ctr_next(ctr: u64) -> u64 {
    if ctr == u64::MAX {
        0
    } else {
        (ctr + 1) as u64
    }
}

/// The state after one byte has been produced.
pub open spec fn step_of(c: Core) -> Core {
    Core { key: c.key, ctr: ctr_next(c.ctr) }
}

/// The state after `n` bytes have been produced.
pub open spec fn advanced(c: Core, n: nat) -> Core
    decreases n,
{
    if n == 0 {
        c
    } else {
        step_of(advanced(c, (n - 1) as nat))
    }
}

/// The first `n` bytes of the stream starting at state `c`.
pub open spec fn stream(c: Core, n: nat) -> Seq<u8>
    decreases n,
{
    if n == 0 {
        Seq::empty()
    } else {
        stream(c, (n - 1) as nat).push(byte_of(advanced(c, (n - 1) as nat)))
    }
}

/// The stream of `n` bytes really has `n` bytes.
pub proof fn lemma_stream_len(c: Core, n: nat)
    ensures
        stream(c, n).len() == n,
    decreases n,
{
    if n > 0 {
        lemma_stream_len(c, (n - 1) as nat);
    }
}

/// Walking `m` bytes and then `n` more lands where walking `m + n` does.
pub proof fn lemma_advanced_add(c: Core, m: nat, n: nat)
    ensures
        advanced(advanced(c, m), n) == advanced(c, m + n),
    decreases n,
{
    if n > 0 {
        lemma_advanced_add(c, m, (n - 1) as nat);
    }
}

/// The stream of `m + n` bytes is the stream of `m` bytes followed by the
/// `n` bytes of the state reached after those `m`: output produced across
/// several requests is one consistent sequence.
pub proof fn lemma_stream_append(c: Core, m: nat, n: nat)
    ensures
        stream(c, m + n) == stream(c, m) + stream(advanced(c, m), n),
    decreases n,
{
    lemma_stream_len(c, m);
    if n == 0 {
        assert(stream(c, m + n) =~= stream(c, m) + stream(advanced(c, m), n));
    } else {
        lemma_stream_append(c, m, (n - 1) as nat);
        lemma_advanced_add(c, m, (n - 1) as nat);
        assert(stream(c, m + n) =~= stream(c, m) + stream(advanced(c, m), n));
    }
}

/// A 32-bit word assembled from four stream bytes, low byte first.
pub open spec fn le_u32(b0: u8, b1: u8, b2: u8, b3: u8) -> u32 {
    (b0 as u32) | ((b1 as u32) << 8) | ((b2 as u32) << 16) | ((b3 as u32) << 24)
}

/// The 32-bit word a generator at state `c` produces next.
pub open spec fn u32_of(c: Core) -> u32 {
    le_u32(
        byte_of(c),
        byte_of(advanced(c, 1)),
        byte_of(advanced(c, 2)),
        byte_of(advanced(c, 3)),
    )
}

/// The 64-bit word a generator at state `c` produces next: two 32-bit
/// words, low half first.
pub open spec fn u64_of(c: Core) -> u64 {
    (u32_of(c) as u64) | ((u32_of(advanced(c, 4)) as u64) << 32)
}

/// A 64-bit word assembled from eight bytes, low byte first.
pub open spec fn le_u64(s: Seq<u8>) -> u64
    recommends
        s.len() == 8,
{
    (s[0] as u64) | ((s[1] as u64) << 8) | ((s[2] as u64) << 16) | ((s[3] as u64) << 24)
        | ((s[4] as u64) << 32) | ((s[5] as u64) << 40) | ((s[6] as u64) << 48)
        | ((s[7] as u64) << 56)
}

/// Assemble a 64-bit word from eight bytes, low byte first.
pub fn u64_from_le_bytes(b: &Vec<u8>) -> (r: u64)
    requires
        b@.len() == 8,
    ensures
        r == le_u64(b@),
{
    (b[0] as u64) | ((b[1] as u64) << 8) | ((b[2] as u64) << 16) | ((b[3] as u64) << 24)
        | ((b[4] as u64) << 32) | ((b[5] as u64) << 40) | ((b[6] as u64) << 48)
        | ((b[7] as u64) << 56)
}

/// The low eight bits of a word, as a byte.
pub fn low_byte_of(x: u64) -> (b: u8)
    ensures
        b == (x & 0xff) as u8,
{
    proof {
        assert(x & 0xff < 256) by (bit_vector);
    }
    (x & 0xff) as u8
}

impl Core {
    /// Seed a fresh generator: it will walk the stream of `key` from the start.
    pub fn from_seed(key: u64) -> (c: Core)
        ensures
            c == (Core { key: key, ctr: 0 }),
    {
        Core { key: key, ctr: 0 }
    }

    /// Produce the next byte of the stream and advance one step.
    pub fn next_byte(&mut self) -> (b: u8)
        ensures
            b == byte_of(*old(self)),
            *final(self) == step_of(*old(self)),
    {
        let x = self.key ^ self.ctr;
        let m = x ^ (x >> 29);
        let b = low_byte_of(m);
        self.ctr = if self.ctr == u64::MAX {
            0
        } else {
            self.ctr + 1
        };
        b
    }

    /// Produce the next 32-bit word: the next four stream bytes, low first.
    pub fn next_u32(&mut self) -> (r: u32)
        ensures
            r == u32_of(*old(self)),
            *final(self) == advanced(*old(self), 4),
    {
        let ghost c0 = *self;
        let b0 = self.next_byte();
        let b1 = self.next_byte();
        let b2 = self.next_byte();
        let b3 = self.next_byte();
        proof {
            assert(advanced(c0, 1) == step_of(advanced(c0, 0)));
            assert(advanced(c0, 2) == step_of(advanced(c0, 1)));
            assert(advanced(c0, 3) == step_of(advanced(c0, 2)));
            assert(advanced(c0, 4) == step_of(advanced(c0, 3)));
        }
        (b0 as u32) | ((b1 as u32) << 8) | ((b2 as u32) << 16) | ((b3 as u32) << 24)
    }

    /// Produce the next 64-bit word: the next eight stream bytes, low first.
    pub fn next_u64(&mut self) -> (r: u64)
        ensures
            r == u64_of(*old(self)),
            *final(self) == advanced(*old(self), 8),
    {
        let ghost c0 = *self;
        let lo = self.next_u32();
        let hi = self.next_u32();
        proof {
            lemma_advanced_add(c0, 4, 4);
        }
        (lo as u64) | ((hi as u64) << 32)
    }

    /// Overwrite every byte of `dest` with the next `dest.len()` stream bytes.
    pub fn fill_bytes(&mut self, dest: &mut Vec<u8>)
        ensures
            final(dest)@.len() == old(dest)@.len(),
            final(dest)@ == stream(*old(self), old(dest)@.len() as nat),
            *final(self) == advanced(*old(self), old(dest)@.len() as nat),
    {
        let ghost c0 = *self;
        let ghost n = dest@.len();
        let len = dest.len();
        let mut i: usize = 0;
        while i < len
            invariant
                i <= len,
                n == len,
                dest@.len() == n,
                *self == advanced(c0, i as nat),
                dest@.subrange(0, i as int) == stream(c0, i as nat),
            decreases len - i,
        {
            let ghost before = dest@;
            let b = self.next_byte();
            dest[i] = b;
            proof {
                assert(advanced(c0, (i + 1) as nat) == step_of(advanced(c0, i as nat)));
                assert(dest@.subrange(0, i as int) =~= before.subrange(0, i as int));
                assert(dest@.subrange(0, (i + 1) as int) =~= stream(c0, (i + 1) as nat));
            }
            i = i + 1;
        }
        proof {
            assert(dest@ =~= dest@.subrange(0, n as int));
        }
    }
}

} // verus!
