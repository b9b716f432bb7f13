//! 16-bit little-endian PCM: samples to bytes and back.

use vstd::prelude::*;

verus! {

/// The sample stored in bytes `lo`, `hi` (two's complement, low byte first).
pub open spec fn sample_of(lo: u8, hi: u8) -> i16 {
    let v = hi as int * 256 + lo as int;
    (if v >= 32768 { v - 65536 } else { v }) as i16
}

/// Samples held by a byte buffer; a trailing odd byte is no sample.
pub open spec fn samples_of(b: Seq<u8>) -> Seq<i16> {
    Seq::new(b.len() / 2, |i: int| sample_of(b[2 * i], b[2 * i + 1]))
}

/// The sample's bit pattern as an unsigned 16-bit value.
pub open spec fn bits_of(s: i16) -> int {
    if s < 0 { s as int + 65536 } else { s as int }
}

pub open spec fn lo_byte(s: i16) -> u8 {
    (bits_of(s) % 256) as u8
}

pub open spec fn hi_byte(s: i16) -> u8 {
    (bits_of(s) / 256) as u8
}

/// Bytes of a sample sequence, two per sample, low byte first.
pub open spec fn bytes_of(s: Seq<i16>) -> Seq<u8> {
    Seq::new(2 * s.len(), |i: int| if i % 2 == 0 { lo_byte(s[i / 2]) } else { hi_byte(s[i / 2]) })
}

/// Reads samples out of little-endian bytes.
pub fn decode_pcm16_le(bytes: &[u8]) -> (r: Vec<i16>)
    ensures
        r@ == samples_of(bytes@),
{
    let len = bytes.len();
    let n = len / 2;
    let mut out: Vec<i16> = Vec::with_capacity(n);
    let mut i: usize = 0;
    while i < n
        invariant
            len == bytes@.len(),
            n == bytes@.len() / 2,
            i <= n,
            out@ == samples_of(bytes@).subrange(0, i as int),
        decreases n - i,
    {
        assert(i + i + 1 < bytes@.len()) by (nonlinear_arith)
            requires
                i < n,
                n == bytes@.len() / 2,
        ;
        let j: usize = i + i;
        let lo = bytes[j];
        let hi = bytes[j + 1];
        let v: i32 = (hi as i32) * 256 + (lo as i32);
        let s: i16 = if v >= 32768 { (v - 65536) as i16 } else { v as i16 };
        out.push(s);
        assert(out@ =~= samples_of(bytes@).subrange(0, i as int + 1));
        i = i + 1;
    }
    assert(out@ =~= samples_of(bytes@));
    out
}

/// Writes samples as little-endian bytes.
pub fn encode_pcm16_le(samples: &[i16]) -> (r: Vec<u8>)
    requires
        samples@.len() * 2 <= usize::MAX,
    ensures
        r@ == bytes_of(samples@),
{
    let mut out: Vec<u8> = Vec::with_capacity(samples.len() * 2);
    let mut i: usize = 0;
    while i < samples.len()
        invariant
            i <= samples@.len(),
            samples@.len() * 2 <= usize::MAX,
            out@ == bytes_of(samples@).subrange(0, 2 * i as int),
        decreases samples@.len() - i,
    {
        let s = samples[i];
        let v: i32 = if s < 0 { s as i32 + 65536 } else { s as i32 };
        out.push((v % 256) as u8);
        out.push((v / 256) as u8);
        assert(out@ =~= bytes_of(samples@).subrange(0, 2 * i as int + 2));
        i = i + 1;
    }
    assert(out@ =~= bytes_of(samples@));
    out
}

proof fn lemma_sample_bytes(s: i16)
    ensures
        sample_of(lo_byte(s), hi_byte(s)) == s,
{
    let v = bits_of(s);
    assert(0 <= v < 65536);
    assert(v == 256 * (v / 256) + v % 256) by (nonlinear_arith);
    assert(0 <= v % 256 < 256) by (nonlinear_arith);
    assert(0 <= v / 256 < 256) by (nonlinear_arith)
        requires 0 <= v < 65536;
}

/// Decoding the bytes of encoded samples gives the samples back.
pub proof fn lemma_pcm_round_trip(s: Seq<i16>)
    ensures
        samples_of(bytes_of(s)) == s,
{
    let b = bytes_of(s);
    assert forall|i: int| 0 <= i < s.len() implies #[trigger] samples_of(b)[i] == s[i] by {
        assert((2 * i) / 2 == i && (2 * i) % 2 == 0);
        assert((2 * i + 1) / 2 == i && (2 * i + 1) % 2 == 1);
        lemma_sample_bytes(s[i]);
    }
    assert(samples_of(b) =~= s);
}

} // verus!
