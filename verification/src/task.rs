//! The sampling job description and the errors a job can end with.

use vstd::prelude::*;

verus! {

/// One sampling job: extract `samples` frames from the video at `source`,
/// scaled to `height` pixels high, and write them as PNG files into `target`.
/// Created by the request producer at enqueue time and immutable thereafter;
/// consumed by exactly one worker.
pub struct Task {
    /// Output filename prefix shared by the whole queued batch.
    pub prefix: String,
    /// Target output pixel height; the width is derived from the source
    /// aspect ratio.
    pub height: u32,
    /// Number of frames to extract; at least one.
    pub samples: u32,
    /// Output directory; it must exist before the task runs.
    pub target: String,
    /// Per-batch ordinal used in output filenames.
    pub index: u32,
    /// Path of the input video file.
    pub source: String,
    /// Stable identifier routing progress events back to the right consumer
    /// row; unique per enqueued task.
    pub ref_idx: u32,
}

impl Task {
    /// A task asks for at least one sample and a positive output height.
    pub open spec fn wf(self) -> bool {
        &&& self.samples >= 1
        &&& self.height >= 1
    }
}

/// The stage at which a task failed. Any of these aborts the remaining work
/// of that task only; it is translated into exactly one terminal progress
/// event and never stops the worker or other tasks.
#[derive(Clone, Copy, PartialEq, Eq, Debug)]
pub enum TaskError {
    /// A pipeline stage could not be instantiated or linked, or the source
    /// file could not be read.
    PipelineBuild,
    /// No negotiated video pad was found after pre-roll.
    NoVideoStream,
    /// The stream duration could not be determined.
    DurationUnavailable,
    /// A seek failed or yielded no frame.
    Seek,
    /// The PNG image could not be encoded or written.
    Encode,
}

impl TaskError {
    /// A fixed description of the failure, for the consumer's log.
    pub fn describe(&self) -> (r: &'static str)
        ensures
            r@ == match *self {
                TaskError::PipelineBuild => "failed to build pipeline"@,
                TaskError::NoVideoStream => "no video dimension found"@,
                TaskError::DurationUnavailable => "failed to get duration"@,
                TaskError::Seek => "failed to seek and pull a frame"@,
                TaskError::Encode => "failed to encode image"@,
            },
    {
        match *self {
            TaskError::PipelineBuild => "failed to build pipeline",
            TaskError::NoVideoStream => "no video dimension found",
            TaskError::DurationUnavailable => "failed to get duration",
            TaskError::Seek => "failed to seek and pull a frame",
            TaskError::Encode => "failed to encode image",
        }
    }
}

} // verus!
