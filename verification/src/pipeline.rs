//! The extraction pipeline's sampling state.
//!
//! One `ExtractionState` is owned by one job's video task.  The decode loop
//! reports every decoded frame to it, in decode order and with no counter
//! reset at the post-stream flush: flushed frames simply continue the same
//! counter.  The state retains a frame exactly when the sampling policy
//! says so, converts it to the interchange layout, and appends it with its
//! sequence index, so the collection is always dense and ordered.

use crate::frame::PixelBuffer;
use crate::frame::convert_frame;
use crate::frame::rows_copied;
use crate::job::VideoError;
use crate::sampler::lemma_index_is_retained_count;
use crate::sampler::lemma_interval_one_retains_all;
use crate::sampler::lemma_retained_count_is_ceil;
use crate::sampler::retain;
use crate::sampler::retained_below;
use crate::sampler::sequence_index;
use crate::sampler::spec_retain;
use vstd::prelude::*;

verus! {

/// A retained, converted frame together with its sequence index.
pub struct SampledFrame {
    pub index: usize,
    pub buffer: PixelBuffer,
}

/// The video task's state: the configured interval, the decode counter, and
/// the retained frames collected so far.
pub struct ExtractionState {
    pub interval: usize,
    pub counter: usize,
    pub frames: Vec<SampledFrame>,
}

impl ExtractionState {
    /// The retained collection counts exactly the retained decode counters,
    /// its sequence indices are dense and ordered, and every buffer is a
    /// well-formed interchange raster.
    pub open spec fn wf(&self) -> bool {
        &&& self.interval >= 1
        &&& self.frames@.len() == retained_below(self.counter as nat, self.interval as nat)
        &&& forall|j: int|
            0 <= j < self.frames@.len() ==> (#[trigger] self.frames@[j]).index == j
                && self.frames@[j].buffer.wf()
    }

    /// A fresh state for one job: counter at zero, nothing retained.
    pub fn new(interval: usize) -> (r: Self)
        requires
            interval >= 1,
        ensures
            r.wf(),
            r.interval == interval,
            r.counter == 0,
            r.frames@.len() == 0,
    {
        ExtractionState { interval, counter: 0, frames: Vec::new() }
    }

    /// Whether the frame about to be reported would be retained.
    pub fn wants_current(&self) -> (r: bool)
        requires
            self.interval >= 1,
        ensures
            r == spec_retain(self.counter as nat, self.interval as nat),
    {
        retain(self.counter, self.interval)
    }

    /// Records a decoded frame that the sampling policy does not retain:
    /// only the decode counter advances.
    pub fn record_skipped(&mut self)
        requires
            old(self).wf(),
            !spec_retain(old(self).counter as nat, old(self).interval as nat),
            old(self).counter < usize::MAX,
        ensures
            final(self).wf(),
            final(self).interval == old(self).interval,
            final(self).counter == old(self).counter + 1,
            final(self).frames == old(self).frames,
    {
        self.counter = self.counter + 1;
    }

    /// Records a retained decoded frame: converts the frame's plane to the
    /// interchange layout and appends it under the next sequence index,
    /// which equals both `counter / interval` and the number of frames
    /// retained before it.  A conversion failure leaves the state unchanged
    /// and fails the video task (the strict policy: a lost frame would
    /// silently change the output cardinality).
    pub fn record_retained(&mut self, width: u32, height: u32, stride: usize, raw: &Vec<u8>) -> (r:
        Result<(), VideoError>)
        requires
            old(self).wf(),
            spec_retain(old(self).counter as nat, old(self).interval as nat),
            old(self).counter < usize::MAX,
        ensures
            r is Ok <==> (width as int * 3 <= stride as int && height as int * stride as int
                <= raw@.len()),
            match r {
                Ok(()) => {
                    &&& final(self).wf()
                    &&& final(self).interval == old(self).interval
                    &&& final(self).counter == old(self).counter + 1
                    &&& final(self).frames@.len() == old(self).frames@.len() + 1
                    &&& final(self).frames@ == old(self).frames@.push(final(self).frames@.last())
                    &&& final(self).frames@.last().index as int == old(self).counter as int / old(
                        self,
                    ).interval as int
                    &&& final(self).frames@.last().buffer.width == width
                    &&& final(self).frames@.last().buffer.height == height
                    &&& rows_copied(
                        final(self).frames@.last().buffer.data@,
                        raw@,
                        width as int,
                        height as int,
                        stride as int,
                    )
                },
                Err(e) => {
                    &&& *final(self) == *old(self)
                    &&& e == (VideoError::Convert { counter: old(self).counter })
                },
            },
    {
        match convert_frame(width, height, stride, raw) {
            Some(buffer) => {
                let index = sequence_index(self.counter, self.interval);
                proof {
                    lemma_index_is_retained_count(self.counter as nat, self.interval as nat);
                }
                self.frames.push(SampledFrame { index, buffer });
                self.counter = self.counter + 1;
                Ok(())
            },
            None => Err(VideoError::Convert { counter: self.counter }),
        }
    }

    /// Hands the collected frames over for writing.
    pub fn into_frames(self) -> (r: Vec<SampledFrame>)
        ensures
            r == self.frames,
    {
        self.frames
    }
}

/// Law: in a well-formed extraction state the number of retained frames is
/// `counter / interval` rounded up (`ceil`), their sequence indices are
/// exactly `0 .. count - 1` with no gaps or repeats, interval 1 retains
/// every decoded frame, and a stream of zero decoded frames retains none.
pub proof fn lemma_sampling_density(s: ExtractionState)
    requires
        s.wf(),
    ensures
        s.frames@.len() == (s.counter as int + s.interval as int - 1) / (s.interval as int),
        forall|j: int| 0 <= j < s.frames@.len() ==> (#[trigger] s.frames@[j]).index == j,
        s.interval == 1 ==> s.frames@.len() == s.counter,
        s.counter == 0 ==> s.frames@.len() == 0,
{
    lemma_retained_count_is_ceil(s.counter as nat, s.interval as nat);
    lemma_interval_one_retains_all(s.counter as nat);
}

} // verus!
