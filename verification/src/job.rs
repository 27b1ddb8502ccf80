//! The per-file transcoding job: its lifecycle state machine and the
//! errors that end it.
//!
//! One job exists per qualifying filesystem event. Jobs are independent:
//! each owns its input path and reads only an immutable configuration
//! snapshot, so no job shares mutable state with another. A job's life is
//! `Detected`, then `Debouncing` while the settle delay runs, then
//! `Invoking` while the encoder runs, and finally `Succeeded` or `Failed`;
//! the two final states are never left.

use vstd::prelude::*;
use crate::config::ServiceConfig;
use crate::qualify::{views_of, qualifying_spec, qualifying_paths, EventKind};

verus! {

/// Why a job failed. Each variant carries the diagnostic text reported to
/// the operator; no error stops the service or another job.
#[derive(Debug)]
pub enum JobError {
    /// The input's file name has no stem to derive an output directory from.
    NoFileStem,
    /// The output directory could not be created; holds the filesystem error.
    DirCreateFailed(String),
    /// The encoder process could not be started; holds the spawn error.
    SpawnFailed(String),
    /// The encoder exited with a non-zero status; holds its standard error.
    EncoderFailed(String),
}

/// Where a job stands in its life.
#[derive(Clone, Copy, PartialEq, Eq, Structural, Debug)]
pub enum JobState {
    /// A qualifying event for the input was observed.
    Detected,
    /// The settle delay is running.
    Debouncing,
    /// The encoder is being invoked and supervised.
    Invoking,
    /// The encoder exited with status zero.
    Succeeded,
    /// Path derivation, directory creation, spawning or encoding failed.
    Failed,
}

/// What can happen to a job.
#[derive(Clone, Copy, PartialEq, Eq, Structural, Debug)]
pub enum JobEvent {
    /// The event qualified and the job was admitted.
    Qualify,
    /// The settle delay elapsed.
    DelayElapsed,
    /// The encoder exited with status zero.
    InvokeSucceeded,
    /// Derivation, directory creation, spawn or encoding failed.
    InvokeFailed,
}

/// The lifecycle transition relation. An event that does not apply to the
/// current state leaves the job where it stands.
pub open spec fn job_next(s: JobState, e: JobEvent) -> JobState {
    match (s, e) {
        (JobState::Detected, JobEvent::Qualify) => JobState::Debouncing,
        (JobState::Debouncing, JobEvent::DelayElapsed) => JobState::Invoking,
        (JobState::Invoking, JobEvent::InvokeSucceeded) => JobState::Succeeded,
        (JobState::Invoking, JobEvent::InvokeFailed) => JobState::Failed,
        _ => s,
    }
}

/// Whether `s` is a final state.
pub open spec fn is_terminal(s: JobState) -> bool {
    s == JobState::Succeeded || s == JobState::Failed
}

/// No event leaves a final state: a job that has succeeded or failed stays
/// so forever.
pub proof fn lemma_terminal_states_final(s: JobState, e: JobEvent)
    ensures
        is_terminal(s) ==> job_next(s, e) == s,
{
}

/// The encoder runs only after the settle delay: the only way into
/// `Invoking` is out of `Debouncing`, and the only way into `Debouncing`
/// is out of `Detected`.
pub proof fn lemma_invocation_follows_delay(s: JobState, e: JobEvent)
    ensures
        job_next(s, e) == JobState::Invoking ==> s == JobState::Invoking || (s
            == JobState::Debouncing && e == JobEvent::DelayElapsed),
        job_next(s, e) == JobState::Debouncing ==> s == JobState::Debouncing || (s
            == JobState::Detected && e == JobEvent::Qualify),
{
}

/// One transcoding job: the input it was created for, where it stands,
/// and when it passed the two timed marks of its life. Times are
/// caller-supplied clock readings in milliseconds.
#[derive(Debug)]
pub struct TranscodeJob {
    /// Path of the source video file.
    pub input_path: String,
    /// Where the job stands in its life.
    pub state: JobState,
    /// When the job qualified; meaningful once past `Detected`.
    pub qualified_at_ms: u64,
    /// When encoder invocation began; meaningful once past `Debouncing`.
    pub invoking_at_ms: u64,
}

/// The settle delay was respected: a job that has reached invocation (or
/// ended) began invoking no earlier than `SETTLE_DELAY_MS` after it
/// qualified.
pub open spec fn settle_respected(j: TranscodeJob) -> bool {
    j.state == JobState::Invoking || is_terminal(j.state) ==> j.invoking_at_ms
        >= j.qualified_at_ms + crate::SETTLE_DELAY_MS
}

impl TranscodeJob {
    /// A fresh job for one detected input.
    pub fn new(input_path: String) -> (j: Self)
        ensures
            j.state == JobState::Detected,
            j.input_path@ == input_path@,
            settle_respected(j),
    {
        TranscodeJob {
            input_path,
            state: JobState::Detected,
            qualified_at_ms: 0,
            invoking_at_ms: 0,
        }
    }

    /// Moves the job along the lifecycle relation at clock reading
    /// `now_ms`; the input is untouched. Entering invocation demands that
    /// the settle delay has elapsed since qualification, and each
    /// transition keeps `settle_respected`: however a job is driven, by
    /// the time the encoder starts, at least `SETTLE_DELAY_MS` of wall
    /// time lies between qualification and invocation.
    pub fn advance(&mut self, e: JobEvent, now_ms: u64)
        requires
            old(self).state == JobState::Debouncing && e == JobEvent::DelayElapsed ==> now_ms
                >= old(self).qualified_at_ms + crate::SETTLE_DELAY_MS,
        ensures
            final(self).state == job_next(old(self).state, e),
            final(self).input_path@ == old(self).input_path@,
            final(self).qualified_at_ms == (if old(self).state == JobState::Detected && e
                == JobEvent::Qualify {
                now_ms
            } else {
                old(self).qualified_at_ms
            }),
            final(self).invoking_at_ms == (if old(self).state == JobState::Debouncing && e
                == JobEvent::DelayElapsed {
                now_ms
            } else {
                old(self).invoking_at_ms
            }),
            settle_respected(*old(self)) ==> settle_respected(*final(self)),
    {
        match (self.state, e) {
            (JobState::Detected, JobEvent::Qualify) => {
                self.qualified_at_ms = now_ms;
                self.state = JobState::Debouncing;
            },
            (JobState::Debouncing, JobEvent::DelayElapsed) => {
                self.invoking_at_ms = now_ms;
                self.state = JobState::Invoking;
            },
            (JobState::Invoking, JobEvent::InvokeSucceeded) => {
                self.state = JobState::Succeeded;
            },
            (JobState::Invoking, JobEvent::InvokeFailed) => {
                self.state = JobState::Failed;
            },
            (_, _) => {},
        }
    }

    /// Settles the job's final state from the invocation's outcome.
    pub fn conclude(&mut self, outcome: &Result<String, JobError>)
        requires
            old(self).state == JobState::Invoking,
        ensures
            final(self).input_path@ == old(self).input_path@,
            final(self).qualified_at_ms == old(self).qualified_at_ms,
            final(self).invoking_at_ms == old(self).invoking_at_ms,
            outcome is Ok ==> final(self).state == JobState::Succeeded,
            outcome is Err ==> final(self).state == JobState::Failed,
            settle_respected(*old(self)) ==> settle_respected(*final(self)),
    {
        match outcome {
            Ok(_) => {
                self.state = JobState::Succeeded;
            },
            Err(_) => {
                self.state = JobState::Failed;
            },
        }
    }
}

/// One independent job per qualifying path of one event, in the order the
/// event listed them; a non-qualifying event yields none.
pub fn jobs_for_event(kind: EventKind, paths: &Vec<String>, config: &ServiceConfig) -> (r: Vec<
    TranscodeJob,
>)
    ensures
        r@.len() == qualifying_spec(
            kind,
            views_of(paths@),
            views_of(config.video_extensions@),
        ).len(),
        forall|i: int|
            0 <= i < r@.len() ==> (#[trigger] r@[i]).input_path@ == qualifying_spec(
                kind,
                views_of(paths@),
                views_of(config.video_extensions@),
            )[i] && r@[i].state == JobState::Detected,
{
    let q = qualifying_paths(kind, paths, &config.video_extensions);
    let ghost qv = qualifying_spec(kind, views_of(paths@), views_of(config.video_extensions@));
    let mut jobs: Vec<TranscodeJob> = Vec::new();
    let n = q.len();
    let mut i: usize = 0;
    while i < n
        invariant
            n == q@.len(),
            i <= n,
            views_of(q@) == qv,
            jobs@.len() == i,
            forall|j: int|
                0 <= j < i ==> (#[trigger] jobs@[j]).input_path@ == qv[j] && jobs@[j].state
                    == JobState::Detected,
        decreases n - i,
    {
        jobs.push(TranscodeJob::new(q[i].clone()));
        i = i + 1;
    }
    jobs
}

} // verus!
