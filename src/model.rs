//! Records kept by the job record store: one `Pipeline` per run, one `Step` per
//! unit of work, and one `YoutubeVideo` per catalogued video. Identifiers are
//! 128-bit values and instants are nanoseconds since the Unix epoch (UTC).
use vstd::prelude::*;

verus! {

/// Status of a pipeline run or of a single step.
#[derive(Clone, Copy, Debug, PartialEq, Eq, Structural)]
pub enum StepStatus {
    Queued,
    Processed,
    Error,
}

impl StepStatus {
    pub open spec fn spec_is_terminal(self) -> bool {
        self != StepStatus::Queued
    }

    /// Processed or Error.
    #[verifier::when_used_as_spec(spec_is_terminal)]
    pub fn is_terminal(self) -> (r: bool)
        ensures
            r == self.spec_is_terminal(),
    {
        !matches!(self, StepStatus::Queued)
    }

    /// The terminal status of a unit of work that succeeded or failed.
    pub fn from_outcome(succeeded: bool) -> (r: StepStatus)
        ensures
            r == (if succeeded { StepStatus::Processed } else { StepStatus::Error }),
    {
        if succeeded {
            StepStatus::Processed
        } else {
            StepStatus::Error
        }
    }

    /// The name under which the status is stored.
    pub fn as_str(self) -> (r: &'static str)
        ensures
            r@ == status_name(self),
    {
        match self {
            StepStatus::Queued => "Queued",
            StepStatus::Processed => "Processed",
            StepStatus::Error => "Error",
        }
    }
}

pub open spec fn status_name(s: StepStatus) -> Seq<char> {
    match s {
        StepStatus::Queued => "Queued"@,
        StepStatus::Processed => "Processed"@,
        StepStatus::Error => "Error"@,
    }
}

/// The instant at which a piece of work that began at `created_at` is recorded
/// as finished, read from a clock showing `now`: a clock that went backwards
/// never makes a record finish before it began.
pub open spec fn finish_instant(created_at: i128, now: i128) -> i128 {
    if now < created_at { created_at } else { now }
}

/// One unit of work performed by a stage.
#[derive(Clone, Debug)]
pub struct Step {
    pub id: u128,
    pub pipeline_id: u128,
    pub name: String,
    pub state: String,
    pub status: StepStatus,
    pub arg: String,
    pub created_at: i128,
    pub updated_at: i128,
    pub finished_at: Option<i128>,
}

impl Step {
    /// A step is finished exactly when its status is terminal, and it never
    /// finishes or is updated before it was created.
    pub open spec fn wf(&self) -> bool {
        &&& self.created_at <= self.updated_at
        &&& self.status.spec_is_terminal() <==> self.finished_at.is_some()
        &&& (self.finished_at matches Some(t) ==> self.created_at <= t && t <= self.updated_at)
    }

    /// A step about to start: status Queued, nothing finished, empty scratch state.
    pub fn queued(id: u128, pipeline_id: u128, name: String, arg: String, now: i128) -> (s: Step)
        ensures
            s.id == id,
            s.pipeline_id == pipeline_id,
            s.name == name,
            s.arg == arg,
            s.state@ == Seq::<char>::empty(),
            s.status == StepStatus::Queued,
            s.created_at == now,
            s.updated_at == now,
            s.finished_at.is_none(),
            s.wf(),
    {
        Step {
            id,
            pipeline_id,
            name,
            state: String::new(),
            status: StepStatus::Queued,
            arg,
            created_at: now,
            updated_at: now,
            finished_at: None,
        }
    }

    /// The step once finished with `status` at `now`.
    pub open spec fn spec_finish(self, status: StepStatus, now: i128) -> Step {
        let t = finish_instant(self.created_at, now);
        Step { status, finished_at: Some(t), updated_at: t, ..self }
    }

    /// Moves a queued step to the terminal `status`, finished at `now` (or at
    /// its creation instant if the clock reads earlier). Everything else is kept.
    pub fn finish(self, status: StepStatus, now: i128) -> (s: Step)
        requires
            self.wf(),
            self.status == StepStatus::Queued,
            status.spec_is_terminal(),
        ensures
            s.id == self.id,
            s.pipeline_id == self.pipeline_id,
            s.name == self.name,
            s.arg == self.arg,
            s.state == self.state,
            s.created_at == self.created_at,
            s.status == status,
            s.finished_at == Some(finish_instant(self.created_at, now)),
            s.updated_at == finish_instant(self.created_at, now),
            s == self.spec_finish(status, now),
            s.wf(),
    {
        let t = if now < self.created_at { self.created_at } else { now };
        Step { status, finished_at: Some(t), updated_at: t, ..self }
    }

    /// A queued step with a fresh random identifier, created now.
    pub fn begin(pipeline_id: u128, name: String, arg: String) -> (s: Step)
        ensures
            s.pipeline_id == pipeline_id,
            s.name == name,
            s.arg == arg,
            s.state@ == Seq::<char>::empty(),
            s.status == StepStatus::Queued,
            s.created_at == s.updated_at,
            s.finished_at.is_none(),
            s.wf(),
    {
        let id = new_record_id();
        let now = now_nanos();
        Step::queued(id, pipeline_id, name, arg, now)
    }

    /// Finishes a queued step now, as Processed if the work succeeded and as
    /// Error otherwise.
    pub fn complete(self, succeeded: bool) -> (s: Step)
        requires
            self.wf(),
            self.status == StepStatus::Queued,
        ensures
            s.id == self.id,
            s.pipeline_id == self.pipeline_id,
            s.name == self.name,
            s.arg == self.arg,
            s.state == self.state,
            s.created_at == self.created_at,
            s.status == (if succeeded { StepStatus::Processed } else { StepStatus::Error }),
            s.finished_at.is_some(),
            s.wf(),
    {
        let now = now_nanos();
        self.finish(StepStatus::from_outcome(succeeded), now)
    }
}

/// A step's lifecycle: a queued step, finished with a terminal status at any
/// clock reading, is in that terminal state with `finished_at` set no earlier
/// than `created_at`; it is no longer Queued, so it can not be finished a second
/// time, and its identity, name and argument are those it was queued with.
pub proof fn lemma_step_lifecycle(s: Step, status: StepStatus, now: i128)
    requires
        s.wf(),
        s.status == StepStatus::Queued,
        status.spec_is_terminal(),
    ensures
        s.spec_finish(status, now).wf(),
        s.spec_finish(status, now).status == status,
        s.spec_finish(status, now).status != StepStatus::Queued,
        s.spec_finish(status, now).finished_at matches Some(t) && s.created_at <= t,
        s.spec_finish(status, now).id == s.id,
        s.spec_finish(status, now).name == s.name,
        s.spec_finish(status, now).arg == s.arg,
{
}

/// One end-to-end run of the workflow.
#[derive(Clone, Debug)]
pub struct Pipeline {
    pub id: u128,
    pub kind: String,
    pub args: String,
    pub status: StepStatus,
    pub created_at: i128,
    pub updated_at: i128,
    pub finished_at: Option<i128>,
}

impl Pipeline {
    /// Same shape as for steps: finished exactly when terminal, never before creation.
    pub open spec fn wf(&self) -> bool {
        &&& self.created_at <= self.updated_at
        &&& self.status.spec_is_terminal() <==> self.finished_at.is_some()
        &&& (self.finished_at matches Some(t) ==> self.created_at <= t && t <= self.updated_at)
    }

    /// A run just started: status Queued, nothing finished.
    pub fn queued(id: u128, kind: String, args: String, now: i128) -> (p: Pipeline)
        ensures
            p.id == id,
            p.kind == kind,
            p.args == args,
            p.status == StepStatus::Queued,
            p.created_at == now,
            p.updated_at == now,
            p.finished_at.is_none(),
            p.wf(),
    {
        Pipeline { id, kind, args, status: StepStatus::Queued, created_at: now, updated_at: now, finished_at: None }
    }

    /// A run started now with a fresh random identifier.
    pub fn begin(kind: String, args: String) -> (p: Pipeline)
        ensures
            p.kind == kind,
            p.args == args,
            p.status == StepStatus::Queued,
            p.created_at == p.updated_at,
            p.finished_at.is_none(),
            p.wf(),
    {
        let id = new_record_id();
        let now = now_nanos();
        Pipeline::queued(id, kind, args, now)
    }

    /// Closes the run at `now`: Processed when every item succeeded, Error otherwise.
    pub fn finish(self, all_succeeded: bool, now: i128) -> (p: Pipeline)
        requires
            self.wf(),
            self.status == StepStatus::Queued,
        ensures
            p.id == self.id,
            p.kind == self.kind,
            p.args == self.args,
            p.created_at == self.created_at,
            p.status == (if all_succeeded { StepStatus::Processed } else { StepStatus::Error }),
            p.finished_at == Some(finish_instant(self.created_at, now)),
            p.updated_at == finish_instant(self.created_at, now),
            p.wf(),
    {
        let t = if now < self.created_at { self.created_at } else { now };
        Pipeline { status: StepStatus::from_outcome(all_succeeded), finished_at: Some(t), updated_at: t, ..self }
    }
}

/// Metadata of one catalogued video, keyed by its source identifier.
#[derive(Clone, Debug)]
pub struct YoutubeVideo {
    pub id: u128,
    pub youtube_id: String,
    pub youtube_channel_id: String,
    pub title: String,
    pub description: String,
    pub duration_secs: u32,
    pub created_at: i128,
    pub updated_at: i128,
}

/// Relies on uuid::Uuid::new_v4 and Uuid::as_u128: a random identifier, of which
/// nothing is promised.
#[verifier::external_body]
pub(crate) fn new_record_id() -> (r: u128) {
    uuid::Uuid::new_v4().as_u128()
}

/// Relies on time::OffsetDateTime::now_utc and unix_timestamp_nanos: the wall
/// clock, of which nothing is promised (it may even go backwards).
#[verifier::external_body]
pub(crate) fn now_nanos() -> (r: i128) {
    time::OffsetDateTime::now_utc().unix_timestamp_nanos()
}

} // verus!
