//! Progress events: what a task reports to the single consumer, and the
//! exact trace a successful or failed task produces.

use vstd::prelude::*;

verus! {

/// The fraction `done / total` of a task's samples completed so far.
/// Kept as an exact pair; the consumer may render it as a ratio.
#[derive(Clone, Copy, PartialEq, Eq, Debug)]
pub struct ProgressFrac {
    /// Samples completed so far.
    pub done: u32,
    /// Samples the task plans in total.
    pub total: u32,
}

impl ProgressFrac {
    /// A reported fraction lies in (0, 1]: at least one sample is done and
    /// never more than planned.
    pub open spec fn wf(self) -> bool {
        1 <= self.done <= self.total
    }
}

/// One progress report for the task identified by `ref_idx`.
/// `Some(f)` means "fraction `f` of the samples completed, no error so far";
/// `None` means "the task failed; nothing further follows for the task".
#[derive(Clone, Copy, PartialEq, Eq, Debug)]
pub struct ProgressEvent {
    /// Identifier of the task this event belongs to.
    pub ref_idx: u32,
    /// The completed fraction, or `None` on terminal failure.
    pub progress: Option<ProgressFrac>,
}

/// The full trace a successful task with `total` samples emits for `ref_idx`:
/// one event per sample, the i-th (counting from zero) reporting the
/// fraction `(i + 1) / total`.
pub open spec fn success_events(ref_idx: u32, total: u32) -> Seq<ProgressEvent> {
    Seq::new(
        total as nat,
        |i: int|
            ProgressEvent {
                ref_idx,
                progress: Some(ProgressFrac { done: (i + 1) as u32, total }),
            },
    )
}

/// The single terminal event a failed task emits for `ref_idx`.
pub open spec fn failure_event(ref_idx: u32) -> ProgressEvent {
    ProgressEvent { ref_idx, progress: None }
}

/// The event reporting that `done` of `total` samples are finished.
pub fn progress_event(ref_idx: u32, done: u32, total: u32) -> (e: ProgressEvent)
    requires
        1 <= done <= total,
    ensures
        e == success_events(ref_idx, total)[done - 1],
        e.progress matches Some(f) && f.wf(),
{
    ProgressEvent { ref_idx, progress: Some(ProgressFrac { done, total }) }
}

/// The terminal event for a failed task.
pub fn terminal_failure_event(ref_idx: u32) -> (e: ProgressEvent)
    ensures
        e == failure_event(ref_idx),
        e.progress is None,
{
    ProgressEvent { ref_idx, progress: None }
}

/// For every successful task, the trace has exactly `total` entries; the
/// i-th entry carries the task's own `ref_idx` and the fraction
/// `(i + 1) / total` over the fixed denominator `total`; the reported
/// fractions strictly increase, and the last one equals `total / total`,
/// that is one.
pub proof fn lemma_success_events_exact(ref_idx: u32, total: u32)
    requires
        total >= 1,
    ensures
        success_events(ref_idx, total).len() == total,
        forall|i: int|
            0 <= i < total ==> #[trigger] success_events(ref_idx, total)[i] == (ProgressEvent {
                ref_idx,
                progress: Some(ProgressFrac { done: (i + 1) as u32, total }),
            }),
        forall|i: int, j: int|
            0 <= i < j < total ==> (#[trigger] success_events(ref_idx, total)[i]).progress->0.done
                < (#[trigger] success_events(ref_idx, total)[j]).progress->0.done,
        success_events(ref_idx, total).last().progress == Some(
            ProgressFrac { done: total, total },
        ),
{
}

} // verus!
