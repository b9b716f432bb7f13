//! FIFO of decoded assistant samples, filled from inbound audio and drained by
//! the playback callback, which never waits: a shortfall is filled with silence.

use std::collections::VecDeque;
use vstd::prelude::*;

verus! {

/// What `pull(n)` hands out from queued samples `q`: the first `n` of them,
/// then silence up to `n`.
pub open spec fn pulled(q: Seq<i16>, n: nat) -> Seq<i16> {
    Seq::new(n, |i: int| if i < q.len() { q[i] } else { 0i16 })
}

/// What stays queued after `pull(n)`.
pub open spec fn remaining(q: Seq<i16>, n: nat) -> Seq<i16> {
    if n >= q.len() { Seq::empty() } else { q.subrange(n as int, q.len() as int) }
}

pub struct PlaybackBuffer {
    samples: VecDeque<i16>,
}

impl View for PlaybackBuffer {
    type V = Seq<i16>;

    closed spec fn view(&self) -> Seq<i16> {
        self.samples@
    }
}

impl PlaybackBuffer {
    pub fn new() -> (r: PlaybackBuffer)
        ensures
            r@ == Seq::<i16>::empty(),
    {
        PlaybackBuffer { samples: VecDeque::new() }
    }

    /// Room for `capacity` samples is reserved up front.
    pub fn with_capacity(capacity: usize) -> (r: PlaybackBuffer)
        ensures
            r@ == Seq::<i16>::empty(),
    {
        PlaybackBuffer { samples: VecDeque::with_capacity(capacity) }
    }

    pub fn len(&self) -> (r: usize)
        ensures
            r == self@.len(),
    {
        self.samples.len()
    }

    /// Appends samples behind those already queued.
    pub fn push_samples(&mut self, samples: &[i16])
        ensures
            final(self)@ == old(self)@ + samples@,
    {
        let mut i: usize = 0;
        while i < samples.len()
            invariant
                i <= samples@.len(),
                self@ == old(self)@ + samples@.subrange(0, i as int),
            decreases samples@.len() - i,
        {
            self.samples.push_back(samples[i]);
            assert(samples@.subrange(0, i as int + 1) =~= samples@.subrange(0, i as int).push(samples@[i as int]));
            i = i + 1;
        }
        assert(samples@.subrange(0, samples@.len() as int) =~= samples@);
    }

    /// Removes up to `n` samples in arrival order and returns exactly `n`,
    /// zero-filling whatever the queue lacked.
    pub fn pull(&mut self, n: usize) -> (r: Vec<i16>)
        ensures
            r@ == pulled(old(self)@, n as nat),
            final(self)@ == remaining(old(self)@, n as nat),
    {
        let mut out: Vec<i16> = Vec::with_capacity(n);
        let mut i: usize = 0;
        while i < n
            invariant
                i <= n,
                out@ == pulled(old(self)@, i as nat),
                self@ == remaining(old(self)@, i as nat),
            decreases n - i,
        {
            let s = match self.samples.pop_front() {
                Some(v) => v,
                None => 0i16,
            };
            out.push(s);
            assert(out@ =~= pulled(old(self)@, i as nat + 1));
            assert(self@ =~= remaining(old(self)@, i as nat + 1));
            i = i + 1;
        }
        out
    }

    /// Drains into `out`, filling it exactly as `pull(out.len())` would.
    pub fn fill(&mut self, out: &mut [i16])
        ensures
            final(out)@ == pulled(old(self)@, old(out)@.len()),
            final(self)@ == remaining(old(self)@, old(out)@.len()),
    {
        let n = out.len();
        let mut i: usize = 0;
        while i < n
            invariant
                i <= n,
                n == out@.len(),
                out@.len() == old(out)@.len(),
                out@.subrange(0, i as int) == pulled(old(self)@, i as nat),
                self@ == remaining(old(self)@, i as nat),
            decreases n - i,
        {
            let s = match self.samples.pop_front() {
                Some(v) => v,
                None => 0i16,
            };
            let ghost prev = out@;
            out[i] = s;
            assert(out@.subrange(0, i as int) =~= prev.subrange(0, i as int));
            assert(out@.subrange(0, i as int + 1) =~= pulled(old(self)@, i as nat + 1));
            assert(self@ =~= remaining(old(self)@, i as nat + 1));
            i = i + 1;
        }
        assert(out@.subrange(0, n as int) =~= out@);
    }

    /// Discards everything queued.
    pub fn clear(&mut self)
        ensures
            final(self)@ == Seq::<i16>::empty(),
    {
        self.samples.clear();
    }
}

/// Pulling at most as many samples as were just pushed onto an empty buffer
/// gives them back in order; pulling from an empty buffer, as after `clear`,
/// gives silence whatever was pushed before.
pub proof fn lemma_pull_after_push(s: Seq<i16>, n: nat)
    ensures
        n <= s.len() ==> pulled(Seq::<i16>::empty() + s, n) == s.subrange(0, n as int),
        pulled(Seq::<i16>::empty(), n) == Seq::new(n, |i: int| 0i16),
{
    assert(Seq::<i16>::empty() + s =~= s);
    if n <= s.len() {
        assert(pulled(s, n) =~= s.subrange(0, n as int));
    }
    assert(pulled(Seq::<i16>::empty(), n) =~= Seq::new(n, |i: int| 0i16));
}

} // verus!
