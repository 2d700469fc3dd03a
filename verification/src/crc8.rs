//! CRC8 checksum used by the ESP3 framing layer (polynomial 0x07).
//!
//! The checksum is defined mathematically by [`crc8_of`]; the executable
//! entry points are [`compute_crc8`] for a whole slice and the incremental
//! accumulator [`CRC8`], which lets the header and payload checksums be
//! computed without concatenating buffers.

use vstd::prelude::*;

verus! {

/// One polynomial-division round: shift the register left and, if a bit
/// fell out, fold the polynomial 0x07 back in.
pub open spec fn crc8_round(c: u8) -> u8 {
    if c & 0x80 != 0 {
        (c << 1) ^ 0x07
    } else {
        c << 1
    }
}

/// The register after `k` polynomial-division rounds.
pub open spec fn crc8_rounds(c: u8, k: nat) -> u8
    decreases k,
{
    if k == 0 {
        c
    } else {
        crc8_round(crc8_rounds(c, (k - 1) as nat))
    }
}

/// Feeding one byte into the register: xor it in, then run eight rounds.
pub open spec fn crc8_feed(c: u8, byte: u8) -> u8 {
    crc8_rounds(c ^ byte, 8)
}

/// Feeding a whole byte sequence into the register, left to right.
pub open spec fn crc8_seq(c: u8, s: Seq<u8>) -> u8
    decreases s.len(),
{
    if s.len() == 0 {
        c
    } else {
        crc8_seq(crc8_feed(c, s[0]), s.subrange(1, s.len() as int))
    }
}

/// The CRC8 of a byte sequence, starting from an all-zero register.
pub open spec fn crc8_of(s: Seq<u8>) -> u8 {
    crc8_seq(0, s)
}

/// The register reached over `a ++ b` is the register reached over `b`
/// starting from the register reached over `a`: checksums of several
/// non-contiguous slices may be chained.
pub proof fn lemma_crc8_seq_concat(c: u8, a: Seq<u8>, b: Seq<u8>)
    ensures
        crc8_seq(c, a + b) == crc8_seq(crc8_seq(c, a), b),
    decreases a.len(),
{
    if a.len() == 0 {
        assert(a + b =~= b);
    } else {
        assert((a + b).subrange(1, (a + b).len() as int) =~= a.subrange(1, a.len() as int) + b);
        lemma_crc8_seq_concat(crc8_feed(c, a[0]), a.subrange(1, a.len() as int), b);
    }
}

/// The CRC8 of a concatenation is reachable by folding the accumulator
/// over the first part and then the second.
pub proof fn lemma_crc8_concat(a: Seq<u8>, b: Seq<u8>)
    ensures
        crc8_of(a + b) == crc8_seq(crc8_of(a), b),
{
    lemma_crc8_seq_concat(0, a, b);
}

/// Incremental CRC8 accumulator.
pub struct CRC8 {
    state: u8,
}

impl CRC8 {
    /// The register value accumulated so far.
    pub closed spec fn acc(&self) -> u8 {
        self.state
    }

    /// A fresh accumulator with an all-zero register.
    pub fn start() -> (r: Self)
        ensures
            r.acc() == 0,
    {
        CRC8 { state: 0 }
    }

    /// Fold one byte into the register.
    pub fn feed(&mut self, byte: u8)
        ensures
            final(self).acc() == crc8_feed(old(self).acc(), byte),
    {
        let mut c: u8 = self.state ^ byte;
        let mut k: usize = 0;
        while k < 8
            invariant
                k <= 8,
                c == crc8_rounds(old(self).state ^ byte, k as nat),
            decreases 8 - k,
        {
            c = if c & 0x80 != 0 {
                (c << 1u8) ^ 0x07
            } else {
                c << 1u8
            };
            k = k + 1;
        }
        self.state = c;
    }

    /// Fold a whole slice into the register, left to right.
    pub fn feed_slice(&mut self, bytes: &[u8])
        ensures
            final(self).acc() == crc8_seq(old(self).acc(), bytes@),
    {
        let n = bytes.len();
        let mut i: usize = 0;
        proof {
            assert(bytes@.subrange(0, n as int) =~= bytes@);
        }
        while i < n
            invariant
                i <= n,
                n == bytes@.len(),
                crc8_seq(old(self).acc(), bytes@) == crc8_seq(
                    self.acc(),
                    bytes@.subrange(i as int, n as int),
                ),
            decreases n - i,
        {
            let ghost pre = self.acc();
            self.feed(bytes[i]);
            proof {
                assert(bytes@.subrange(i as int, n as int).subrange(
                    1,
                    bytes@.subrange(i as int, n as int).len() as int,
                ) =~= bytes@.subrange(i + 1, n as int));
                assert(bytes@.subrange(i as int, n as int)[0] == bytes@[i as int]);
            }
            i = i + 1;
        }
        proof {
            assert(bytes@.subrange(n as int, n as int) =~= Seq::<u8>::empty());
        }
    }

    /// The finished checksum: the register itself.
    pub fn finish(&self) -> (r: u8)
        ensures
            r == self.acc(),
    {
        self.state
    }
}

/// The CRC8 of a byte slice.
pub fn compute_crc8(data: &[u8]) -> (r: u8)
    ensures
        r == crc8_of(data@),
{
    let mut acc = CRC8::start();
    acc.feed_slice(data);
    acc.finish()
}

} // verus!
