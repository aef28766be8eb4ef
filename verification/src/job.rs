//! Task outcomes and the job coordinator's aggregation rules.
//!
//! One extraction job runs two independent tasks, the video pipeline and the
//! audio extraction, against the same source.  The coordinator waits for
//! both and reports both outcomes; a failure of one never hides or alters
//! the outcome of the other, and the job as a whole succeeds exactly when
//! both tasks did.

use vstd::prelude::*;

verus! {

/// The sampling interval used when none is given.
pub const DEFAULT_INTERVAL: usize = 30;

/// The configuration of one extraction job.
pub struct JobConfig {
    pub input_path: String,
    pub output_dir: String,
    pub interval: usize,
}

impl JobConfig {
    /// A job's interval is at least 1.
    pub open spec fn wf(&self) -> bool {
        self.interval >= 1
    }
}

/// Validates a job's configuration.  An absent interval falls back to the
/// default; an interval of zero is a configuration error, never a runtime
/// division by zero.
pub fn job_config(input_path: String, output_dir: String, interval: Option<usize>) -> (r: Option<
    JobConfig,
>)
    ensures
        r is Some <==> interval != Some(0usize),
        match r {
            Some(c) => {
                &&& c.wf()
                &&& c.input_path == input_path
                &&& c.output_dir == output_dir
                &&& c.interval == (match interval {
                    Some(i) => i,
                    None => DEFAULT_INTERVAL,
                })
            },
            None => interval == Some(0usize),
        },
{
    match interval {
        Some(i) => {
            if i == 0 {
                None
            } else {
                Some(JobConfig { input_path, output_dir, interval: i })
            }
        },
        None => Some(JobConfig { input_path, output_dir, interval: DEFAULT_INTERVAL }),
    }
}

/// Why the video task failed, identified by pipeline stage.
#[derive(Clone, Copy, PartialEq, Eq, Structural, Debug)]
pub enum VideoError {
    /// No video stream was located in the source.
    StreamNotFound,
    /// The decoder rejected a packet or frame; `counter` is the decode
    /// counter reached when it did.
    Decode { counter: usize },
    /// Pixel conversion of the retained frame at decode counter `counter`
    /// failed.
    Convert { counter: usize },
    /// `failed` entries of the write plan could not be persisted.
    Write { failed: usize },
}

/// Why the audio task failed.
#[derive(Clone, Copy, PartialEq, Eq, Structural, Debug)]
pub enum AudioError {
    /// The input path does not exist.
    InputNotFound,
    /// The audio extraction collaborator reported failure.
    ExtractionFailed,
}

/// Both task outcomes of one job, reported independently.
pub struct JobResult {
    pub video: Result<(), VideoError>,
    pub audio: Result<(), AudioError>,
}

/// The job result that reports the two given task outcomes.
pub open spec fn spec_combined(
    video: Result<(), VideoError>,
    audio: Result<(), AudioError>,
) -> JobResult {
    JobResult { video, audio }
}

impl JobResult {
    /// A job succeeds exactly when both of its tasks did.
    pub open spec fn success_spec(&self) -> bool {
        self.video is Ok && self.audio is Ok
    }

    pub fn is_success(&self) -> (r: bool)
        ensures
            r == self.success_spec(),
    {
        self.video.is_ok() && self.audio.is_ok()
    }
}

/// Aggregates the two task outcomes: each is carried into the result
/// unchanged, so neither failure is ever silently dropped.
pub fn combine_results(video: Result<(), VideoError>, audio: Result<(), AudioError>) -> (r:
    JobResult)
    ensures
        r == spec_combined(video, audio),
        r.video == video,
        r.audio == audio,
{
    JobResult { video, audio }
}

/// The audio task's outcome: it fails with `InputNotFound` when the input
/// path is missing (the collaborator is then never run), fails with
/// `ExtractionFailed` when the collaborator reported failure, and succeeds
/// otherwise.
pub fn audio_verdict(input_exists: bool, extractor_succeeded: bool) -> (r: Result<(), AudioError>)
    ensures
        r is Ok <==> input_exists && extractor_succeeded,
        !input_exists ==> r == Err::<(), AudioError>(AudioError::InputNotFound),
        input_exists && !extractor_succeeded ==> r == Err::<(), AudioError>(
            AudioError::ExtractionFailed,
        ),
{
    if !input_exists {
        Err(AudioError::InputNotFound)
    } else if !extractor_succeeded {
        Err(AudioError::ExtractionFailed)
    } else {
        Ok(())
    }
}

/// Law: the tasks are aggregated independently.  The video outcome a job
/// reports does not depend on the audio outcome, and vice versa; and the
/// job succeeds exactly when both tasks succeeded.
pub proof fn lemma_task_independence(
    v1: Result<(), VideoError>,
    v2: Result<(), VideoError>,
    a1: Result<(), AudioError>,
    a2: Result<(), AudioError>,
)
    ensures
        spec_combined(v1, a1).video == spec_combined(v1, a2).video,
        spec_combined(v1, a1).audio == spec_combined(v2, a1).audio,
        spec_combined(v1, a1).success_spec() <==> v1 is Ok && a1 is Ok,
{
}

} // verus!
