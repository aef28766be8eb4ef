//! The parallel writer: encodes every retained frame to a named PNG write
//! plan, in parallel across the host's workers, and aggregates the
//! per-entry outcomes.
//!
//! Entries are independent: a failure of one is recorded and never aborts
//! its siblings, and the aggregate succeeds exactly when every entry did.
//! The persisting of the planned bytes is the caller's I/O; the plan's
//! names and contents, and the aggregation of outcomes, are decided here.

use crate::job::VideoError;
use crate::naming::frame_file_name;
use crate::naming::spec_frame_name;
use crate::pipeline::SampledFrame;
use rayon::iter::IntoParallelRefIterator;
use rayon::iter::ParallelIterator;
use vstd::prelude::*;

verus! {

/// The PNG encoding of a tight 8-bit RGB raster of the given dimensions:
/// it depends on the dimensions and pixel bytes alone.
pub uninterp spec fn png_bytes_of(width: u32, height: u32, data: Seq<u8>) -> Seq<u8>;

/// One entry of the write plan: the sequence index, the file name derived
/// from it, and the encoded PNG bytes (`None` when encoding failed).
pub struct WriteItem {
    pub index: usize,
    pub name: String,
    pub png: Option<Vec<u8>>,
}

/// `it` is the write-plan entry for the retained frame `f`: the frame's
/// index and name, and its PNG encoding, owed whenever the frame is not
/// degenerate (both dimensions at least 1).
pub open spec fn encoded_from(f: SampledFrame, it: WriteItem) -> bool {
    &&& it.index == f.index
    &&& it.name@ == spec_frame_name(f.index as nat)
    &&& it.png is Some <==> (f.buffer.width >= 1 && f.buffer.height >= 1)
    &&& match it.png {
        Some(p) => p@ == png_bytes_of(f.buffer.width, f.buffer.height, f.buffer.data@),
        None => true,
    }
}

/// Relies on image's `PngEncoder` through `ImageEncoder::write_image`: the
/// PNG written into the in-memory buffer is a function of the dimensions
/// and pixel bytes alone.  The exact buffer length is required because a
/// mismatch panics; with it, the encoder's only failures are a zero width
/// or height, reported as error values — writing into memory raises no I/O
/// error — so encoding succeeds exactly on non-degenerate dimensions.
#[verifier::external_body]
fn encode_png_rgb8(width: u32, height: u32, data: &Vec<u8>) -> (r: Option<Vec<u8>>)
    requires
        data@.len() == width as int * height as int * 3,
    ensures
        r is Some <==> (width >= 1 && height >= 1),
        r matches Some(p) ==> p@ == png_bytes_of(width, height, data@),
{
    let mut out: Vec<u8> = Vec::new();
    let encoder = image::codecs::png::PngEncoder::new(&mut out);
    let written = image::ImageEncoder::write_image(
        encoder,
        data.as_slice(),
        width,
        height,
        image::ExtendedColorType::Rgb8,
    );
    match written {
        Ok(()) => Some(out),
        Err(_) => None,
    }
}

/// Builds the write-plan entry of one retained frame: its deterministic
/// file name and its encoded PNG bytes.
pub fn encode_entry(f: &SampledFrame) -> (r: WriteItem)
    requires
        f.buffer.wf(),
    ensures
        encoded_from(*f, r),
{
    let name = frame_file_name(f.index);
    let png = encode_png_rgb8(f.buffer.width, f.buffer.height, &f.buffer.data);
    WriteItem { index: f.index, name, png }
}

/// Relies on rayon's `par_iter().map(..).collect::<Vec<_>>()`: the mapped
/// function (here the verified `encode_entry`) is applied to every element
/// and the results are collected in the input's order.
#[verifier::external_body]
fn par_encode(frames: &Vec<SampledFrame>) -> (r: Vec<WriteItem>)
    requires
        forall|j: int| 0 <= j < frames@.len() ==> (#[trigger] frames@[j]).buffer.wf(),
    ensures
        r@.len() == frames@.len(),
        forall|j: int| 0 <= j < frames@.len() ==> encoded_from(frames@[j], #[trigger] r@[j]),
{
    frames.par_iter().map(|f| encode_entry(f)).collect()
}

/// Encodes every retained frame concurrently across a worker pool; entry
/// `j` of the plan belongs to frame `j`, so the plan keeps the collection's
/// order and indices.
pub fn plan_writes(frames: &Vec<SampledFrame>) -> (r: Vec<WriteItem>)
    requires
        forall|j: int| 0 <= j < frames@.len() ==> (#[trigger] frames@[j]).buffer.wf(),
    ensures
        r@.len() == frames@.len(),
        forall|j: int| 0 <= j < frames@.len() ==> encoded_from(frames@[j], #[trigger] r@[j]),
{
    par_encode(frames)
}

/// The recorded outcome of one write-plan entry.
#[derive(Clone, Copy, PartialEq, Eq, Structural, Debug)]
pub struct EntryOutcome {
    pub index: usize,
    pub ok: bool,
}

/// The indices of the failed entries of `s`, in order.
pub open spec fn spec_failed(s: Seq<EntryOutcome>) -> Seq<usize>
    decreases s.len(),
{
    if s.len() == 0 {
        Seq::empty()
    } else {
        spec_failed(s.drop_last()) + if s.last().ok {
            Seq::<usize>::empty()
        } else {
            seq![s.last().index]
        }
    }
}

/// How many entries of `s` succeeded.
pub open spec fn spec_ok_count(s: Seq<EntryOutcome>) -> nat
    decreases s.len(),
{
    if s.len() == 0 {
        0
    } else {
        spec_ok_count(s.drop_last()) + if s.last().ok {
            1nat
        } else {
            0nat
        }
    }
}

/// The aggregate write result: the full set of per-entry outcomes, and the
/// indices of the failed entries.
pub struct WriteReport {
    pub outcomes: Vec<EntryOutcome>,
    pub failed: Vec<usize>,
}

impl WriteReport {
    /// The failed list is exactly the failed entries' indices.
    pub open spec fn wf(&self) -> bool {
        self.failed@ == spec_failed(self.outcomes@)
    }

    /// The aggregate succeeds exactly when no entry failed.
    pub open spec fn success_spec(&self) -> bool {
        spec_failed(self.outcomes@).len() == 0
    }

    pub fn is_success(&self) -> (r: bool)
        requires
            self.wf(),
        ensures
            r == self.success_spec(),
    {
        self.failed.len() == 0
    }
}

/// Aggregates the per-entry outcomes of one write plan.  Entry `j`
/// succeeded exactly when its PNG was encoded and the caller persisted it
/// (`written[j]`); every entry is reported, and a failed entry never
/// disturbs its siblings' outcomes.
pub fn summarize_writes(items: &Vec<WriteItem>, written: &Vec<bool>) -> (r: WriteReport)
    requires
        written@.len() == items@.len(),
    ensures
        r.wf(),
        r.outcomes@.len() == items@.len(),
        forall|j: int|
            0 <= j < items@.len() ==> #[trigger] r.outcomes@[j] == (EntryOutcome {
                index: items@[j].index,
                ok: items@[j].png is Some && written@[j],
            }),
{
    let mut outcomes: Vec<EntryOutcome> = Vec::new();
    let mut failed: Vec<usize> = Vec::new();
    let mut j: usize = 0;
    #[verifier::loop_isolation(false)]
    while j < items.len()
        invariant
            j <= items@.len(),
            outcomes@.len() == j,
            forall|k: int|
                0 <= k < j ==> #[trigger] outcomes@[k] == (EntryOutcome {
                    index: items@[k].index,
                    ok: items@[k].png is Some && written@[k],
                }),
            failed@ == spec_failed(outcomes@),
        decreases items@.len() - j,
    {
        let ghost prev = outcomes@;
        let ghost prev_failed = failed@;
        let ok = items[j].png.is_some() && written[j];
        outcomes.push(EntryOutcome { index: items[j].index, ok });
        if !ok {
            failed.push(items[j].index);
        }
        proof {
            assert(outcomes@.drop_last() =~= prev);
            assert(outcomes@.last() == (EntryOutcome { index: items@[j as int].index, ok }));
            if ok {
                assert(failed@ =~= spec_failed(prev) + Seq::<usize>::empty());
            } else {
                assert(failed@ =~= spec_failed(prev) + seq![items@[j as int].index]);
            }
        }
        j = j + 1;
    }
    WriteReport { outcomes, failed }
}

/// Turns a write report into the video task's result: `Ok` exactly when
/// every entry of the report succeeded; otherwise the error carries how
/// many entries failed.
pub fn write_verdict(report: &WriteReport) -> (r: Result<(), VideoError>)
    requires
        report.wf(),
    ensures
        r is Ok <==> report.success_spec(),
        r is Err ==> r == Err::<(), VideoError>(
            VideoError::Write { failed: spec_failed(report.outcomes@).len() as usize },
        ),
{
    if report.failed.len() == 0 {
        Ok(())
    } else {
        Err(VideoError::Write { failed: report.failed.len() })
    }
}

/// Every entry succeeded: nothing is listed as failed and the success
/// count is the whole plan.
pub proof fn lemma_all_ok(s: Seq<EntryOutcome>)
    requires
        forall|k: int| 0 <= k < s.len() ==> (#[trigger] s[k]).ok,
    ensures
        spec_failed(s).len() == 0,
        spec_ok_count(s) == s.len(),
    decreases s.len(),
{
    if s.len() > 0 {
        lemma_all_ok(s.drop_last());
    }
}

/// Law: when exactly one entry of a plan of K entries failed, the report
/// lists that entry's index alone, and the other K - 1 entries succeeded.
pub proof fn lemma_single_failure(s: Seq<EntryOutcome>, j: int)
    requires
        0 <= j < s.len(),
        !s[j].ok,
        forall|k: int| 0 <= k < s.len() && k != j ==> (#[trigger] s[k]).ok,
    ensures
        spec_failed(s) == seq![s[j].index],
        spec_ok_count(s) == s.len() - 1,
    decreases s.len(),
{
    if j == s.len() - 1 {
        lemma_all_ok(s.drop_last());
        assert(spec_failed(s) =~= seq![s[j].index]);
    } else {
        lemma_single_failure(s.drop_last(), j);
        assert(spec_failed(s) =~= seq![s[j].index]);
    }
}

} // verus!
