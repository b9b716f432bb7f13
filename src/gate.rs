//! Onset gate on captured audio.
//!
//! While the assistant is speaking, its own voice leaks back into the
//! microphone. Microphone chunks are then forwarded only once the level has
//! stayed at or above the onset threshold for a number of consecutive chunks;
//! while the assistant is silent, every chunk passes.

use vstd::prelude::*;
use crate::level::{chunk_peak_level_i16, level_of};

verus! {

/// Loud-chunk counter after one chunk of level `peak`. The count stops
/// growing once it has reached `min`, which is all that the decision reads.
pub open spec fn next_count(count: nat, min: nat, onset: u16, peak: u16, speaking: bool) -> nat {
    if !speaking {
        0
    } else if peak >= onset {
        if count < min { count + 1 } else { count }
    } else {
        0
    }
}

/// Whether a chunk is forwarded, given the counter after it.
pub open spec fn forwards(count: nat, min: nat, speaking: bool) -> bool {
    !speaking || count >= min
}

/// Decisions of a gate started at `count` over chunks given as
/// (level, assistant speaking).
pub open spec fn run(count: nat, min: nat, onset: u16, chunks: Seq<(u16, bool)>) -> Seq<bool>
    decreases chunks.len(),
{
    if chunks.len() == 0 {
        Seq::empty()
    } else {
        let c = next_count(count, min, onset, chunks[0].0, chunks[0].1);
        seq![forwards(c, min, chunks[0].1)] + run(c, min, onset, chunks.drop_first())
    }
}

pub struct GateModel {
    pub count: nat,
    pub min: nat,
    pub onset: u16,
}

pub struct CaptureGate {
    onset_peak: u16,
    onset_min_chunks: usize,
    loud_consecutive: usize,
}

impl View for CaptureGate {
    type V = GateModel;

    closed spec fn view(&self) -> GateModel {
        GateModel {
            count: self.loud_consecutive as nat,
            min: self.onset_min_chunks as nat,
            onset: self.onset_peak,
        }
    }
}

impl CaptureGate {
    pub closed spec fn wf(&self) -> bool {
        self.loud_consecutive <= self.onset_min_chunks
    }

    /// A gate with onset threshold `onset_peak` (a peak on the scale of
    /// `level::FULL_SCALE`) and `onset_min_chunks` loud chunks to wait for.
    pub fn new(onset_peak: u16, onset_min_chunks: usize) -> (r: CaptureGate)
        ensures
            r.wf(),
            r@ == (GateModel { count: 0, min: onset_min_chunks as nat, onset: onset_peak }),
    {
        CaptureGate { onset_peak, onset_min_chunks, loud_consecutive: 0 }
    }

    pub fn loud_count(&self) -> (r: usize)
        ensures
            r == self@.count,
    {
        self.loud_consecutive
    }

    /// Decides on one chunk of level `peak`; `speaking` is whether a response
    /// is active or in flight.
    pub fn pass_level(&mut self, peak: u16, speaking: bool) -> (r: bool)
        requires
            old(self).wf(),
        ensures
            final(self).wf(),
            final(self)@.min == old(self)@.min,
            final(self)@.onset == old(self)@.onset,
            final(self)@.count == next_count(old(self)@.count, old(self)@.min, old(self)@.onset, peak, speaking),
            r == forwards(final(self)@.count, final(self)@.min, speaking),
    {
        if !speaking {
            self.loud_consecutive = 0;
            return true;
        }
        if peak >= self.onset_peak {
            if self.loud_consecutive < self.onset_min_chunks {
                self.loud_consecutive = self.loud_consecutive + 1;
            }
        } else {
            self.loud_consecutive = 0;
        }
        self.loud_consecutive >= self.onset_min_chunks
    }

    /// Decides on one captured chunk, measuring its level first.
    pub fn pass_chunk(&mut self, samples: &[i16], speaking: bool) -> (r: bool)
        requires
            old(self).wf(),
        ensures
            final(self).wf(),
            final(self)@.min == old(self)@.min,
            final(self)@.onset == old(self)@.onset,
            final(self)@.count == next_count(
                old(self)@.count,
                old(self)@.min,
                old(self)@.onset,
                level_of(samples@) as u16,
                speaking,
            ),
            r == forwards(final(self)@.count, final(self)@.min, speaking),
    {
        let peak = chunk_peak_level_i16(samples);
        self.pass_level(peak, speaking)
    }
}

/// While the assistant is silent, every chunk is forwarded.
pub proof fn lemma_silent_assistant_passes_all(count: nat, min: nat, onset: u16, chunks: Seq<(u16, bool)>)
    ensures
        run(count, min, onset, chunks).len() == chunks.len(),
        forall|i: int| 0 <= i < chunks.len() && !chunks[i].1 ==> #[trigger] run(count, min, onset, chunks)[i],
    decreases chunks.len(),
{
    if chunks.len() > 0 {
        let c = next_count(count, min, onset, chunks[0].0, chunks[0].1);
        lemma_silent_assistant_passes_all(c, min, onset, chunks.drop_first());
        assert forall|i: int| 0 <= i < chunks.len() && !chunks[i].1 implies #[trigger] run(count, min, onset, chunks)[i] by {
            if i > 0 {
                assert(chunks.drop_first()[i - 1] == chunks[i]);
            }
        }
    }
}

/// While the assistant speaks, a chunk below the onset threshold is never
/// forwarded (when at least one loud chunk is asked for).
pub proof fn lemma_soft_chunks_blocked(count: nat, min: nat, onset: u16, chunks: Seq<(u16, bool)>)
    requires
        min >= 1,
    ensures
        run(count, min, onset, chunks).len() == chunks.len(),
        forall|i: int|
            0 <= i < chunks.len() && chunks[i].1 && chunks[i].0 < onset ==> !#[trigger] run(count, min, onset, chunks)[i],
    decreases chunks.len(),
{
    if chunks.len() > 0 {
        let c = next_count(count, min, onset, chunks[0].0, chunks[0].1);
        lemma_soft_chunks_blocked(c, min, onset, chunks.drop_first());
        assert forall|i: int|
            0 <= i < chunks.len() && chunks[i].1 && chunks[i].0 < onset implies !#[trigger] run(count, min, onset, chunks)[i] by {
            if i > 0 {
                assert(chunks.drop_first()[i - 1] == chunks[i]);
            }
        }
    }
}

/// While the assistant speaks, a run of loud chunks that starts from a reset
/// counter is forwarded from the `min`-th chunk on, and not before.
pub proof fn lemma_onset_after_min_loud(count: nat, min: nat, onset: u16, chunks: Seq<(u16, bool)>)
    requires
        count <= min,
        forall|i: int| 0 <= i < chunks.len() ==> (#[trigger] chunks[i]).1 && chunks[i].0 >= onset,
    ensures
        run(count, min, onset, chunks).len() == chunks.len(),
        forall|i: int|
            0 <= i < chunks.len() ==> #[trigger] run(count, min, onset, chunks)[i] == (count + i + 1 >= min),
    decreases chunks.len(),
{
    if chunks.len() > 0 {
        let c = next_count(count, min, onset, chunks[0].0, chunks[0].1);
        let rest = chunks.drop_first();
        assert forall|i: int| 0 <= i < rest.len() implies (#[trigger] rest[i]).1 && rest[i].0 >= onset by {
            assert(rest[i] == chunks[i + 1]);
        }
        lemma_onset_after_min_loud(c, min, onset, rest);
        assert forall|i: int|
            0 <= i < chunks.len() implies #[trigger] run(count, min, onset, chunks)[i] == (count + i + 1 >= min) by {
            if i > 0 {
                assert(run(count, min, onset, chunks)[i] == run(c, min, onset, rest)[i - 1]);
            }
        }
    }
}

/// One soft chunk while the assistant speaks resets the count: what follows
/// is decided as from a fresh gate.
pub proof fn lemma_soft_chunk_resets(count: nat, min: nat, onset: u16, peak: u16, rest: Seq<(u16, bool)>)
    requires
        peak < onset,
    ensures
        run(count, min, onset, seq![(peak, true)] + rest) == seq![min == 0] + run(0, min, onset, rest),
{
    let chunks = seq![(peak, true)] + rest;
    assert(chunks.drop_first() =~= rest);
    assert(chunks[0] == (peak, true));
}

} // verus!
