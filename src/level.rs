//! Loudness of a chunk of 16-bit PCM audio.
//!
//! The level is a fraction of full scale: the peak magnitude returned here
//! divided by `FULL_SCALE`. It is kept as an integer so that thresholds and
//! comparisons are exact.

use vstd::prelude::*;

verus! {

/// Largest representable magnitude of a 16-bit sample; a peak of this value is a level of 1.
pub const FULL_SCALE: u16 = 32767;

/// Magnitude of one sample.
pub open spec fn magnitude(s: i16) -> int {
    if s < 0 { -(s as int) } else { s as int }
}

/// Largest magnitude among the samples (0 for none).
pub open spec fn peak_of(s: Seq<i16>) -> int
    decreases s.len(),
{
    if s.len() == 0 {
        0
    } else {
        let m = peak_of(s.drop_last());
        let a = magnitude(s.last());
        if a > m { a } else { m }
    }
}

/// The peak magnitude, clamped to full scale.
pub open spec fn level_of(s: Seq<i16>) -> int {
    if peak_of(s) > FULL_SCALE as int { FULL_SCALE as int } else { peak_of(s) }
}

proof fn lemma_peak_bounds(s: Seq<i16>)
    ensures
        0 <= peak_of(s) <= 32768,
        forall|i: int| 0 <= i < s.len() ==> magnitude(#[trigger] s[i]) <= peak_of(s),
    decreases s.len(),
{
    if s.len() > 0 {
        lemma_peak_bounds(s.drop_last());
        assert forall|i: int| 0 <= i < s.len() implies magnitude(#[trigger] s[i]) <= peak_of(s) by {
            if i < s.len() - 1 {
                assert(s[i] == s.drop_last()[i]);
            }
        }
    }
}

/// Peak level of a chunk: the largest sample magnitude, clamped to `FULL_SCALE`.
pub fn chunk_peak_level_i16(samples: &[i16]) -> (r: u16)
    ensures
        r as int == level_of(samples@),
{
    let mut peak: u16 = 0;
    let mut i: usize = 0;
    while i < samples.len()
        invariant
            i <= samples@.len(),
            peak as int == level_of(samples@.subrange(0, i as int)),
        decreases samples@.len() - i,
    {
        let s = samples[i];
        let a: u16 = if s == i16::MIN {
            FULL_SCALE
        } else if s < 0 {
            (-s) as u16
        } else {
            s as u16
        };
        if a > peak {
            peak = a;
        }
        proof {
            let prev = samples@.subrange(0, i as int);
            let next = samples@.subrange(0, i as int + 1);
            assert(next.drop_last() =~= prev);
            assert(next.last() == s);
            lemma_peak_bounds(prev);
        }
        i = i + 1;
    }
    assert(samples@.subrange(0, samples@.len() as int) =~= samples@);
    peak
}

/// A level lies between silence and full scale; no samples is silence, and a
/// chunk holding a sample of the largest magnitude is at full scale.
pub proof fn lemma_level_range(s: Seq<i16>)
    ensures
        0 <= level_of(s) <= FULL_SCALE as int,
        s.len() == 0 ==> level_of(s) == 0,
        (s.contains(i16::MAX) || s.contains(i16::MIN)) ==> level_of(s) == FULL_SCALE as int,
{
    lemma_peak_bounds(s);
}

} // verus!
