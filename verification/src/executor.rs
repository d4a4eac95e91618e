//! The task executor: one task's lifecycle as a verified state machine.
//!
//! The decoding pipeline is an external, stateful collaborator. The executor
//! owns every decision of the lifecycle — what to ask the pipeline next, how
//! to turn its answers into geometry, plan, file names and encoded images,
//! which progress events to emit, and when the task is over — while the
//! runner performs the requested [`Action`]s (build, seek, write, teardown)
//! and feeds back their outcomes. Teardown is owed on every exit path: every
//! terminal transition hands the runner a [`Action::Finish`], and a finished
//! executor accepts no further step.

use crate::encode::encode_frame;
use crate::encode::png_encoding;
use crate::encode::rgb_len;
use crate::geometry::derived_width;
use crate::geometry::spec_derived_width;
use crate::plan::plan_samples;
use crate::progress::failure_event;
use crate::progress::progress_event;
use crate::progress::success_events;
use crate::progress::terminal_failure_event;
use crate::progress::ProgressEvent;
use crate::sort::sorted;
use crate::task::Task;
use crate::task::TaskError;
use crate::timecode::sample_file_name;
use crate::timecode::spec_sample_name;
use vstd::prelude::*;

verus! {

/// Where the executor stands in the task lifecycle.
#[derive(Clone, Copy, PartialEq, Eq, Structural, Debug)]
pub enum Stage {
    /// The pipeline build was requested.
    Start,
    /// The pipeline is paused; the decoder's pads await inspection.
    AwaitGeometry,
    /// The output geometry is fixed; the sink's capability constraint and
    /// final linking were requested.
    AwaitConfigure,
    /// The pipeline has pre-rolled; the duration query was requested.
    AwaitDuration,
    /// A seek for the next planned sample was requested.
    Capturing,
    /// The encoded image for the current sample awaits its write.
    AwaitWrite,
    /// Terminal: the task succeeded or failed; the pipeline was handed back
    /// for teardown.
    Done,
}

/// What the runner must do next for the task.
pub enum Action {
    /// Build the five-stage pipeline for the task's source file, pause it,
    /// and wait for the decoder to pre-roll.
    Build,
    /// Inspect the decoder's negotiated pads for a video stream's native
    /// geometry.
    Inspect,
    /// Constrain the sink to `width x height` 8-bit RGB, finish linking the
    /// pipeline, and wait for it to reach the paused state.
    Configure { width: u64, height: u32 },
    /// Query the stream duration in nanoseconds.
    QueryDuration,
    /// Issue a flushing, accurate seek to `at` nanoseconds and pull one
    /// frame from the sink.
    Capture { at: u64 },
    /// Write `data` as the file `name` inside the task's target directory.
    Write { name: String, data: Vec<u8> },
    /// Tear the pipeline down to idle; the task is over. On failure the
    /// terminal event has already been handed out with this action.
    Finish { failure: Option<TaskError> },
}

/// Drives one task. The runner alternates: perform the pending [`Action`],
/// then report its outcome through the matching `on_*` method, forwarding
/// any returned [`ProgressEvent`] to the consumer, until [`Action::Finish`]
/// arrives.
pub struct Executor {
    /// The task being executed; never changed by the executor.
    pub task: Task,
    /// Current lifecycle stage.
    pub stage: Stage,
    /// Derived output width; meaningful from `AwaitConfigure` on.
    pub width: u64,
    /// Stream duration in nanoseconds; meaningful from `Capturing` on.
    pub duration: u64,
    /// The planned capture timestamps; meaningful from `Capturing` on.
    pub plan: Vec<u64>,
    /// Samples completed so far; the sample currently in flight when one is.
    pub next: usize,
    /// Why the task failed; meaningful in `Done`.
    pub failure: Option<TaskError>,
    /// Every progress event handed out so far.
    pub history: Ghost<Seq<ProgressEvent>>,
}

impl Executor {
    /// The plan is fully formed: one timestamp per requested sample, each
    /// inside the stream, in non-decreasing order.
    pub open spec fn plan_wf(self) -> bool {
        &&& self.duration > 0
        &&& self.plan@.len() == self.task.samples
        &&& sorted(self.plan@)
        &&& forall|i: int| 0 <= i < self.plan@.len() ==> self.plan@[i] < self.duration
    }

    /// The executor's invariant: established by [`Executor::start`] and
    /// preserved by every step. It ties the emitted history to the stage:
    /// nothing is emitted before the first capture completes; while
    /// capturing, the history is exactly the first `next` events of the
    /// success trace; a successful task has emitted exactly the success
    /// trace; a failed one some prefix of it followed by the single
    /// terminal failure event.
    pub open spec fn wf(self) -> bool {
        &&& self.task.wf()
        &&& match self.stage {
            Stage::Start | Stage::AwaitGeometry | Stage::AwaitConfigure | Stage::AwaitDuration => {
                self.history@ == Seq::<ProgressEvent>::empty()
            },
            Stage::Capturing | Stage::AwaitWrite => {
                &&& self.plan_wf()
                &&& self.next < self.plan@.len()
                &&& self.history@ == success_events(self.task.ref_idx, self.task.samples).take(
                    self.next as int,
                )
            },
            Stage::Done => match self.failure {
                None => self.history@ == success_events(self.task.ref_idx, self.task.samples),
                Some(_) => exists|k: int|
                    0 <= k <= self.task.samples && self.history@ == success_events(
                        self.task.ref_idx,
                        self.task.samples,
                    ).take(k).push(failure_event(self.task.ref_idx)),
            },
        }
    }

    /// The task ended without failure.
    pub open spec fn succeeded(self) -> bool {
        self.stage == Stage::Done && self.failure is None
    }

    /// The task ended in failure.
    pub open spec fn failed(self) -> bool {
        self.stage == Stage::Done && self.failure is Some
    }

    /// Begins a task. The runner's first duty is [`Action::Build`].
    pub fn start(task: Task) -> (r: (Executor, Action))
        requires
            task.wf(),
        ensures
            r.0.wf(),
            r.0.task == task,
            r.0.stage == Stage::Start,
            r.0.history@ == Seq::<ProgressEvent>::empty(),
            r.1 is Build,
    {
        let ex = Executor {
            task,
            stage: Stage::Start,
            width: 0,
            duration: 0,
            plan: Vec::new(),
            next: 0,
            failure: None,
            history: Ghost(Seq::empty()),
        };
        (ex, Action::Build)
    }

    /// Records a failure: the single terminal event of the task is handed
    /// out together with the teardown request, and the executor becomes
    /// terminal.
    fn fail(&mut self, error: TaskError) -> (r: (Option<ProgressEvent>, Action))
        requires
            old(self).wf(),
            old(self).stage != Stage::Done,
        ensures
            final(self).wf(),
            final(self).task == old(self).task,
            final(self).failed(),
            final(self).failure == Some(error),
            final(self).history@ == old(self).history@.push(failure_event(old(self).task.ref_idx)),
            final(self).width == old(self).width,
            final(self).duration == old(self).duration,
            final(self).plan == old(self).plan,
            final(self).next == old(self).next,
            r.0 == Some(failure_event(old(self).task.ref_idx)),
            r.1 matches Action::Finish { failure: f } && f == Some(error),
    {
        self.stage = Stage::Done;
        self.failure = Some(error);
        let ev = terminal_failure_event(self.task.ref_idx);
        proof {
            self.history@ = self.history@.push(failure_event(self.task.ref_idx));
            let ref_idx = self.task.ref_idx;
            let total = self.task.samples;
            if old(self).stage == Stage::Capturing || old(self).stage == Stage::AwaitWrite {
                assert(0 <= old(self).next as int <= total);
                assert(self.history@ == success_events(ref_idx, total).take(
                    old(self).next as int,
                ).push(failure_event(ref_idx)));
            } else {
                assert(success_events(ref_idx, total).take(0) =~= Seq::<ProgressEvent>::empty());
                assert(self.history@ == success_events(ref_idx, total).take(0).push(
                    failure_event(ref_idx),
                ));
            }
        }
        (Some(ev), Action::Finish { failure: Some(error) })
    }

    /// Outcome of [`Action::Build`]: `ok` says whether every stage could be
    /// instantiated and linked and the pipeline reached its pre-roll pause.
    /// On success the pads are inspected next; otherwise the task fails
    /// with [`TaskError::PipelineBuild`] and exactly one terminal event.
    pub fn on_built(&mut self, ok: bool) -> (r: (Option<ProgressEvent>, Action))
        requires
            old(self).wf(),
            old(self).stage == Stage::Start,
        ensures
            final(self).wf(),
            final(self).task == old(self).task,
            ok ==> {
                &&& final(self).stage == Stage::AwaitGeometry
                &&& final(self).history@ == old(self).history@
                &&& r.0 is None
                &&& r.1 is Inspect
            },
            !ok ==> {
                &&& final(self).failed()
                &&& final(self).failure == Some(TaskError::PipelineBuild)
                &&& final(self).history@ == seq![failure_event(old(self).task.ref_idx)]
                &&& r.0 == Some(failure_event(old(self).task.ref_idx))
                &&& (r.1 matches Action::Finish { failure: f } && f == Some(
                    TaskError::PipelineBuild,
                ))
            },
    {
        if ok {
            self.stage = Stage::AwaitGeometry;
            (None, Action::Inspect)
        } else {
            let r = self.fail(TaskError::PipelineBuild);
            proof {
                assert(self.history@ =~= seq![failure_event(old(self).task.ref_idx)]);
            }
            r
        }
    }

    /// Outcome of [`Action::Inspect`]: the native `(width, height)` of the
    /// first negotiated video pad, if any. A missing video stream — or a
    /// degenerate zero native height, from which no aspect ratio can be
    /// derived — fails the task with [`TaskError::NoVideoStream`]. Otherwise
    /// the output width is derived to preserve the aspect ratio at the
    /// task's height, and the sink is constrained to it.
    pub fn on_geometry(&mut self, dims: Option<(u32, u32)>) -> (r: (Option<ProgressEvent>, Action))
        requires
            old(self).wf(),
            old(self).stage == Stage::AwaitGeometry,
        ensures
            final(self).wf(),
            final(self).task == old(self).task,
            dims matches Some(d) ==> (d.1 > 0 ==> {
                &&& final(self).stage == Stage::AwaitConfigure
                &&& final(self).width == spec_derived_width(
                    d.0 as nat,
                    d.1 as nat,
                    old(self).task.height as nat,
                )
                &&& final(self).history@ == old(self).history@
                &&& r.0 is None
                &&& (r.1 matches Action::Configure { width, height } && width == final(self).width
                    && height == old(self).task.height)
            }),
            dims matches Some(d) ==> (d.1 == 0 ==> {
                &&& final(self).failed()
                &&& final(self).failure == Some(TaskError::NoVideoStream)
                &&& final(self).history@ == seq![failure_event(old(self).task.ref_idx)]
                &&& r.0 == Some(failure_event(old(self).task.ref_idx))
            }),
            dims is None ==> {
                &&& final(self).failed()
                &&& final(self).failure == Some(TaskError::NoVideoStream)
                &&& final(self).history@ == seq![failure_event(old(self).task.ref_idx)]
                &&& r.0 == Some(failure_event(old(self).task.ref_idx))
            },
    {
        match dims {
            Some((orig_width, orig_height)) => {
                if orig_height > 0 {
                    let width = derived_width(orig_width, orig_height, self.task.height);
                    self.width = width;
                    self.stage = Stage::AwaitConfigure;
                    (None, Action::Configure { width, height: self.task.height })
                } else {
                    let r = self.fail(TaskError::NoVideoStream);
                    proof {
                        assert(self.history@ =~= seq![failure_event(old(self).task.ref_idx)]);
                    }
                    r
                }
            },
            None => {
                let r = self.fail(TaskError::NoVideoStream);
                proof {
                    assert(self.history@ =~= seq![failure_event(old(self).task.ref_idx)]);
                }
                r
            },
        }
    }

    /// Outcome of [`Action::Configure`]: whether the remaining links could
    /// be made and the whole pipeline reached the paused state. Failure is a
    /// link failure, [`TaskError::PipelineBuild`]; success moves on to the
    /// duration query.
    pub fn on_configured(&mut self, ok: bool) -> (r: (Option<ProgressEvent>, Action))
        requires
            old(self).wf(),
            old(self).stage == Stage::AwaitConfigure,
        ensures
            final(self).wf(),
            final(self).task == old(self).task,
            final(self).width == old(self).width,
            ok ==> {
                &&& final(self).stage == Stage::AwaitDuration
                &&& final(self).history@ == old(self).history@
                &&& r.0 is None
                &&& r.1 is QueryDuration
            },
            !ok ==> {
                &&& final(self).failed()
                &&& final(self).failure == Some(TaskError::PipelineBuild)
                &&& final(self).history@ == seq![failure_event(old(self).task.ref_idx)]
                &&& r.0 == Some(failure_event(old(self).task.ref_idx))
            },
    {
        if ok {
            self.stage = Stage::AwaitDuration;
            (None, Action::QueryDuration)
        } else {
            let r = self.fail(TaskError::PipelineBuild);
            proof {
                assert(self.history@ =~= seq![failure_event(old(self).task.ref_idx)]);
            }
            r
        }
    }

    /// Outcome of [`Action::QueryDuration`]: the stream duration in
    /// nanoseconds, if the query answered. An unanswerable query — or a
    /// zero duration, inside which no instant exists — fails the task with
    /// [`TaskError::DurationUnavailable`]. Otherwise the capture plan is
    /// drawn: whatever the random source returned, it has exactly
    /// `task.samples` timestamps, each inside the stream, sorted
    /// non-decreasing, and the first seek is requested.
    pub fn on_duration(&mut self, nanos: Option<u64>) -> (r: (Option<ProgressEvent>, Action))
        requires
            old(self).wf(),
            old(self).stage == Stage::AwaitDuration,
        ensures
            final(self).wf(),
            final(self).task == old(self).task,
            final(self).width == old(self).width,
            (nanos matches Some(d) && d > 0) ==> {
                &&& final(self).stage == Stage::Capturing
                &&& final(self).duration == nanos->0
                &&& final(self).plan_wf()
                &&& final(self).next == 0
                &&& final(self).history@ == old(self).history@
                &&& r.0 is None
                &&& (r.1 matches Action::Capture { at } && at == final(self).plan@[0])
            },
            (nanos is None || nanos == Some(0u64)) ==> {
                &&& final(self).failed()
                &&& final(self).failure == Some(TaskError::DurationUnavailable)
                &&& final(self).history@ == seq![failure_event(old(self).task.ref_idx)]
                &&& r.0 == Some(failure_event(old(self).task.ref_idx))
            },
    {
        match nanos {
            Some(duration) if duration > 0 => {
                let plan = plan_samples(self.task.samples, duration);
                self.duration = duration;
                self.plan = plan;
                self.next = 0;
                self.stage = Stage::Capturing;
                let at = self.plan[0];
                proof {
                    assert(self.history@ =~= success_events(
                        self.task.ref_idx,
                        self.task.samples,
                    ).take(0));
                }
                (None, Action::Capture { at })
            },
            _ => {
                let r = self.fail(TaskError::DurationUnavailable);
                proof {
                    assert(self.history@ =~= seq![failure_event(old(self).task.ref_idx)]);
                }
                r
            },
        }
    }

    /// A frame of this byte length can be the current sample's 8-bit RGB
    /// image: both output dimensions are positive, the width fits the
    /// encoder, and the buffer holds exactly three bytes per pixel.
    pub open spec fn frame_encodable(self, len: nat) -> bool {
        &&& 0 < self.width <= u32::MAX
        &&& self.task.height > 0
        &&& len == rgb_len(self.width as nat, self.task.height as nat)
    }

    /// Outcome of [`Action::Capture`]: the pulled frame's pixel buffer, or
    /// `None` if the seek failed or yielded no frame, which fails the task
    /// with [`TaskError::Seek`]. A frame that cannot be a well-formed RGB
    /// image of the negotiated geometry fails it with [`TaskError::Encode`].
    /// Otherwise the frame is encoded as PNG and its write requested, under
    /// the name built from the batch prefix, the task's ordinal and the
    /// captured timestamp.
    pub fn on_frame(&mut self, pixels: Option<Vec<u8>>) -> (r: (Option<ProgressEvent>, Action))
        requires
            old(self).wf(),
            old(self).stage == Stage::Capturing,
        ensures
            final(self).wf(),
            final(self).task == old(self).task,
            pixels is None ==> {
                &&& final(self).failed()
                &&& final(self).failure == Some(TaskError::Seek)
                &&& r.0 == Some(failure_event(old(self).task.ref_idx))
            },
            (pixels matches Some(p) && old(self).frame_encodable(p@.len())) ==> {
                &&& final(self).stage == Stage::AwaitWrite
                &&& final(self).width == old(self).width
                &&& final(self).duration == old(self).duration
                &&& final(self).plan == old(self).plan
                &&& final(self).next == old(self).next
                &&& final(self).history@ == old(self).history@
                &&& r.0 is None
                &&& (r.1 matches Action::Write { name, data } && name@ == spec_sample_name(
                    old(self).task.prefix@,
                    old(self).task.index as nat,
                    old(self).plan@[old(self).next as int] as nat,
                ) && data@ == png_encoding(
                    old(self).width as nat,
                    old(self).task.height as nat,
                    pixels->0@,
                ))
            },
            (pixels matches Some(p) && !old(self).frame_encodable(p@.len())) ==> {
                &&& final(self).failed()
                &&& final(self).failure == Some(TaskError::Encode)
                &&& r.0 == Some(failure_event(old(self).task.ref_idx))
            },
    {
        match pixels {
            None => self.fail(TaskError::Seek),
            Some(buffer) => {
                if self.width == 0 || self.width > 0xffff_ffffu64 {
                    return self.fail(TaskError::Encode);
                }
                let width32 = self.width as u32;
                match encode_frame(width32, self.task.height, &buffer) {
                    Ok(data) => {
                        let at = self.plan[self.next];
                        let name = sample_file_name(self.task.prefix.as_str(), self.task.index, at);
                        self.stage = Stage::AwaitWrite;
                        (None, Action::Write { name, data })
                    },
                    Err(_) => self.fail(TaskError::Encode),
                }
            },
        }
    }

    /// Outcome of [`Action::Write`]: whether the image file was created and
    /// written. A write failure fails the task with [`TaskError::Encode`].
    /// A successful write completes the sample: the progress event
    /// `(next + 1) / samples` is handed out, and either the next seek is
    /// requested or — after the last sample — the task is done and the
    /// teardown requested.
    pub fn on_written(&mut self, ok: bool) -> (r: (Option<ProgressEvent>, Action))
        requires
            old(self).wf(),
            old(self).stage == Stage::AwaitWrite,
        ensures
            final(self).wf(),
            final(self).task == old(self).task,
            !ok ==> {
                &&& final(self).failed()
                &&& final(self).failure == Some(TaskError::Encode)
                &&& r.0 == Some(failure_event(old(self).task.ref_idx))
            },
            ok ==> {
                &&& final(self).history@ == old(self).history@.push(
                    success_events(old(self).task.ref_idx, old(self).task.samples)[old(
                        self,
                    ).next as int],
                )
                &&& r.0 == Some(
                    success_events(old(self).task.ref_idx, old(self).task.samples)[old(
                        self,
                    ).next as int],
                )
            },
            (ok && old(self).next + 1 < old(self).plan@.len()) ==> {
                &&& final(self).stage == Stage::Capturing
                &&& final(self).width == old(self).width
                &&& final(self).duration == old(self).duration
                &&& final(self).plan == old(self).plan
                &&& final(self).next == old(self).next + 1
                &&& (r.1 matches Action::Capture { at } && at == old(self).plan@[old(
                    self,
                ).next as int + 1])
            },
            (ok && old(self).next + 1 == old(self).plan@.len()) ==> {
                &&& final(self).succeeded()
                &&& (r.1 matches Action::Finish { failure: f } && f is None)
            },
    {
        if !ok {
            return self.fail(TaskError::Encode);
        }
        let done = (self.next + 1) as u32;
        let ev = progress_event(self.task.ref_idx, done, self.task.samples);
        proof {
            let ref_idx = self.task.ref_idx;
            let total = self.task.samples;
            self.history@ = self.history@.push(success_events(ref_idx, total)[self.next as int]);
            assert(self.history@ =~= success_events(ref_idx, total).take(self.next + 1));
        }
        self.next = self.next + 1;
        if self.next < self.plan.len() {
            self.stage = Stage::Capturing;
            let at = self.plan[self.next];
            (Some(ev), Action::Capture { at })
        } else {
            self.stage = Stage::Done;
            self.failure = None;
            proof {
                assert(self.history@ =~= success_events(self.task.ref_idx, self.task.samples));
            }
            (Some(ev), Action::Finish { failure: None })
        }
    }
}

/// For every successful task, the emitted history is exactly the success
/// trace: one `Some` event per sample — `samples` of them — the i-th
/// reporting the fraction `(i + 1) / samples`, strictly increasing, ending
/// at one; and no failure event anywhere.
pub proof fn lemma_successful_task_trace(ex: Executor)
    requires
        ex.wf(),
        ex.succeeded(),
    ensures
        ex.history@ == success_events(ex.task.ref_idx, ex.task.samples),
        ex.history@.len() == ex.task.samples,
        forall|i: int|
            0 <= i < ex.history@.len() ==> (#[trigger] ex.history@[i]) == (ProgressEvent {
                ref_idx: ex.task.ref_idx,
                progress: Some(
                    crate::progress::ProgressFrac { done: (i + 1) as u32, total: ex.task.samples },
                ),
            }),
        forall|i: int| 0 <= i < ex.history@.len() ==> (#[trigger] ex.history@[i]).progress is Some,
        forall|i: int, j: int|
            0 <= i < j < ex.history@.len() ==> (#[trigger] ex.history@[i]).progress->0.done < (
            #[trigger] ex.history@[j]).progress->0.done,
{
    crate::progress::lemma_success_events_exact(ex.task.ref_idx, ex.task.samples);
}

/// For every failed task, exactly one terminal `None` event is emitted, it
/// is the last event of the history, and every event before it is a `Some`
/// progress report. A failed executor is terminal — no step accepts it — so
/// no further event can follow for its `ref_idx`.
pub proof fn lemma_failed_task_trace(ex: Executor)
    requires
        ex.wf(),
        ex.failed(),
    ensures
        ex.history@.len() >= 1,
        ex.history@.last() == failure_event(ex.task.ref_idx),
        forall|i: int|
            0 <= i < ex.history@.len() - 1 ==> (#[trigger] ex.history@[i]).progress is Some,
        forall|i: int|
            0 <= i < ex.history@.len() ==> (#[trigger] ex.history@[i]).ref_idx == ex.task.ref_idx,
{
    let k = choose|k: int|
        0 <= k <= ex.task.samples && ex.history@ == success_events(
            ex.task.ref_idx,
            ex.task.samples,
        ).take(k).push(failure_event(ex.task.ref_idx));
}

} // verus!
