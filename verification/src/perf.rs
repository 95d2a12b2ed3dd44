//! The rolling window of frame timings kept for diagnostics. The statistics
//! over it (averages, percentiles) are floating point and are computed by
//! the caller from [`FrameStats::samples`].

use vstd::prelude::*;

verus! {

pub const DEFAULT_ROLLING_CAPACITY: usize = 300;

/// One frame's timings. The `*_ms` fields hold `f32` bit patterns of
/// milliseconds; `gpu_ms` is absent when the adapter has no timestamp
/// queries or the readback has not arrived.
#[derive(Debug, Clone, Copy, Default, PartialEq, Eq, Structural)]
pub struct FrameSample {
    pub total_ms: u32,
    pub egui_ms: u32,
    pub tessellate_ms: u32,
    pub pose_ms: u32,
    pub scene_build_ms: u32,
    pub render_submit_ms: u32,
    pub gpu_ms: Option<u32>,
    pub instance_count: u32,
}

/// The most recent frames, at most `capacity` of them, oldest first.
#[derive(Debug, Clone)]
pub struct FrameStats {
    samples: Vec<FrameSample>,
    capacity: usize,
}

impl View for FrameStats {
    type V = Seq<FrameSample>;

    closed spec fn view(&self) -> Seq<FrameSample> {
        self.samples@
    }
}

/// `window` with `s` added, dropping the oldest sample when it already
/// holds `capacity`.
pub open spec fn pushed_window(window: Seq<FrameSample>, capacity: nat, s: FrameSample) -> Seq<FrameSample> {
    if window.len() >= capacity {
        window.drop_first().push(s)
    } else {
        window.push(s)
    }
}

impl FrameStats {
    pub closed spec fn spec_capacity(&self) -> nat {
        self.capacity as nat
    }

    /// The window's invariant: at least one slot, and never more samples
    /// than slots.
    pub closed spec fn wf(&self) -> bool {
        self.capacity >= 1 && self.samples@.len() <= self.capacity
    }

    /// An empty window of `capacity` samples (at least one).
    pub fn new(capacity: usize) -> (s: FrameStats)
        ensures
            s.wf(),
            s@ == Seq::<FrameSample>::empty(),
            s.spec_capacity() == (if capacity < 1 { 1 } else { capacity }),
    {
        let cap = if capacity < 1 { 1 } else { capacity };
        FrameStats { samples: Vec::new(), capacity: cap }
    }

    /// Add the latest frame, dropping the oldest when the window is full.
    pub fn push(&mut self, sample: FrameSample)
        requires
            old(self).wf(),
        ensures
            final(self).wf(),
            final(self).spec_capacity() == old(self).spec_capacity(),
            final(self)@ == pushed_window(old(self)@, old(self).spec_capacity(), sample),
    {
        if self.samples.len() == self.capacity {
            self.samples.remove(0);
        }
        self.samples.push(sample);
        proof {
            let w = old(self)@;
            if w.len() >= old(self).capacity {
                assert(w.remove(0) =~= w.drop_first());
            }
        }
    }

    pub fn clear(&mut self)
        requires
            old(self).wf(),
        ensures
            final(self).wf(),
            final(self).spec_capacity() == old(self).spec_capacity(),
            final(self)@ == Seq::<FrameSample>::empty(),
    {
        self.samples.clear();
    }

    pub fn len(&self) -> (n: usize)
        ensures
            n == self@.len(),
    {
        self.samples.len()
    }

    pub fn is_empty(&self) -> (b: bool)
        ensures
            b == (self@.len() == 0),
    {
        self.samples.len() == 0
    }

    /// The most recent frame.
    pub fn last(&self) -> (r: Option<FrameSample>)
        ensures
            self@.len() == 0 ==> r is None,
            self@.len() > 0 ==> r == Some(self@.last()),
    {
        if self.samples.len() == 0 {
            None
        } else {
            Some(self.samples[self.samples.len() - 1])
        }
    }

    /// The frames in the window, oldest first.
    pub fn samples(&self) -> (v: &Vec<FrameSample>)
        ensures
            v@ == self@,
    {
        &self.samples
    }
}

impl Default for FrameStats {
    fn default() -> (s: FrameStats)
        ensures
            s.wf(),
            s@ == Seq::<FrameSample>::empty(),
            s.spec_capacity() == DEFAULT_ROLLING_CAPACITY,
    {
        FrameStats::new(DEFAULT_ROLLING_CAPACITY)
    }
}

/// The window keeps the latest frames: after a push the newest sample is
/// last, the window never outgrows its capacity, and once full it holds
/// exactly `capacity` samples.
pub proof fn law_window_keeps_latest(window: Seq<FrameSample>, capacity: nat, s: FrameSample)
    requires
        capacity >= 1,
        window.len() <= capacity,
    ensures
        pushed_window(window, capacity, s).last() == s,
        pushed_window(window, capacity, s).len() <= capacity,
        window.len() == capacity ==> pushed_window(window, capacity, s).len() == capacity,
        window.len() < capacity ==> pushed_window(window, capacity, s).drop_last() == window,
        window.len() == capacity ==> pushed_window(window, capacity, s).drop_last() == window.drop_first(),
{
    assert(window.push(s).drop_last() =~= window);
    assert(window.len() >= 1 ==> window.drop_first().push(s).drop_last() =~= window.drop_first());
}

} // verus!
