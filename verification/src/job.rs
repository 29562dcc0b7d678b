use vstd::prelude::*;
use crate::error::{Error, ErrorKind, ErrorView, error_of};
use crate::external::{Timestamp, new_v4_id, now};
use crate::job_action::{JobAction, JobActionView, actions_view, opt_text};
use crate::job_config::{JobConfig, JobConfigView, opt_config};
use crate::job_status::{JobStatus, status_name_spec, is_terminal};
use crate::results::ResultMap;
use crate::text::concat;

verus! {

/// A browser-automation job: its actions, settings, lifecycle status and outcome.
#[derive(Debug)]
pub struct Job {
    id: u128,
    actions: Vec<JobAction>,
    status: JobStatus,
    config: Option<JobConfig>,
    results: Option<ResultMap>,
    error: Option<String>,
    created_at: Timestamp,
    started_at: Option<Timestamp>,
    finished_at: Option<Timestamp>,
}

/// A job as a value.
pub struct JobView {
    pub id: u128,
    pub actions: Seq<JobActionView>,
    pub status: JobStatus,
    pub config: Option<JobConfigView>,
    pub results: Option<Map<Seq<char>, Seq<char>>>,
    pub error: Option<Seq<char>>,
    pub created_at: Timestamp,
    pub started_at: Option<Timestamp>,
    pub finished_at: Option<Timestamp>,
}

/// The view of optional results.
pub open spec fn opt_results(results: Option<ResultMap>) -> Option<Map<Seq<char>, Seq<char>>> {
    match results {
        Some(r) => Some(r@),
        None => None,
    }
}

impl View for Job {
    type V = JobView;

    closed spec fn view(&self) -> JobView {
        JobView {
            id: self.id,
            actions: actions_view(self.actions@),
            status: self.status,
            config: opt_config(self.config),
            results: opt_results(self.results),
            error: opt_text(self.error),
            created_at: self.created_at,
            started_at: self.started_at,
            finished_at: self.finished_at,
        }
    }
}

/// The message with which `new` refuses a job without actions.
pub open spec fn no_actions_message() -> Seq<char> {
    "a job must have at least one action"@
}

/// The error with which a transition named `verb` is refused in `status`.
pub open spec fn refusal(verb: Seq<char>, status: JobStatus) -> ErrorView {
    let message = "cannot "@ + verb + " a job in status "@ + status_name_spec(status);
    error_of(ErrorKind::InvalidInput, message)
}

/// The fields that a job keeps for its whole life: identity, actions, settings and creation time.
pub open spec fn same_identity(a: JobView, b: JobView) -> bool {
    &&& a.id == b.id
    &&& a.actions == b.actions
    &&& a.config == b.config
    &&& a.created_at == b.created_at
}

/// `after` is `before` started: a pending job becomes in progress and gets a start time.
pub open spec fn start_step(before: JobView, after: JobView) -> bool {
    &&& before.status == JobStatus::Pending
    &&& after.started_at is Some
    &&& after == JobView { status: JobStatus::InProgress, started_at: after.started_at, ..before }
}

/// `after` is `before` completed with `results`: a job in progress becomes completed,
/// keeps the results and gets a finish time.
pub open spec fn complete_step(
    before: JobView,
    results: Map<Seq<char>, Seq<char>>,
    after: JobView,
) -> bool {
    &&& before.status == JobStatus::InProgress
    &&& after.finished_at is Some
    &&& after == JobView {
        status: JobStatus::Completed,
        results: Some(results),
        finished_at: after.finished_at,
        ..before
    }
}

/// `after` is `before` failed with `error`: a job in progress becomes failed,
/// keeps the error message and gets a finish time.
pub open spec fn fail_step(before: JobView, error: Seq<char>, after: JobView) -> bool {
    &&& before.status == JobStatus::InProgress
    &&& after.finished_at is Some
    &&& after == JobView {
        status: JobStatus::Failed,
        error: Some(error),
        finished_at: after.finished_at,
        ..before
    }
}

/// What holds of every job that `new` and the transitions produce: it has actions, and its
/// times, results and error are set exactly as far as its status has come.
pub open spec fn lifecycle_consistent(j: JobView) -> bool {
    &&& j.actions.len() > 0
    &&& match j.status {
        JobStatus::Pending => {
            &&& j.started_at is None
            &&& j.finished_at is None
            &&& j.results is None
            &&& j.error is None
        },
        JobStatus::InProgress => {
            &&& j.started_at is Some
            &&& j.finished_at is None
            &&& j.results is None
            &&& j.error is None
        },
        JobStatus::Completed => {
            &&& j.started_at is Some
            &&& j.finished_at is Some
            &&& j.results is Some
            &&& j.error is None
        },
        JobStatus::Failed => {
            &&& j.started_at is Some
            &&& j.finished_at is Some
            &&& j.results is None
            &&& j.error is Some
        },
    }
}

impl Job {
    /// A new pending job with a fresh identifier and the current time, provided it has actions.
    pub fn new(actions: Vec<JobAction>, config: Option<JobConfig>) -> (r: Result<Job, Error>)
        ensures
            r is Err <==> actions@.len() == 0,
            r matches Err(e) ==> e@ == error_of(ErrorKind::InvalidInput, no_actions_message()),
            r matches Ok(job) ==> {
                &&& job@.actions == actions_view(actions@)
                &&& job@.config == opt_config(config)
                &&& job@.status == JobStatus::Pending
                &&& job@.results is None
                &&& job@.error is None
                &&& job@.started_at is None
                &&& job@.finished_at is None
                &&& (job@.id >> 76u128) & 0xfu128 == 4u128
                &&& (job@.id >> 62u128) & 0x3u128 == 2u128
                &&& lifecycle_consistent(job@)
            },
    {
        let id = new_v4_id();
        let created_at = now();
        Self::new_at(actions, config, id, created_at)
    }

    /// A new pending job with the given identifier, created at the given time, provided it
    /// has actions.
    pub fn new_at(
        actions: Vec<JobAction>,
        config: Option<JobConfig>,
        id: u128,
        created_at: Timestamp,
    ) -> (r: Result<Job, Error>)
        ensures
            r is Err <==> actions@.len() == 0,
            r matches Err(e) ==> e@ == error_of(ErrorKind::InvalidInput, no_actions_message()),
            r matches Ok(job) ==> job@ == (JobView {
                id,
                actions: actions_view(actions@),
                status: JobStatus::Pending,
                config: opt_config(config),
                results: None,
                error: None,
                created_at,
                started_at: None,
                finished_at: None,
            }) && lifecycle_consistent(job@),
    {
        if actions.len() == 0 {
            return Err(Error::InvalidInput("a job must have at least one action".to_owned()));
        }
        Ok(Job {
            id,
            actions,
            status: JobStatus::Pending,
            config,
            results: None,
            error: None,
            created_at,
            started_at: None,
            finished_at: None,
        })
    }

    /// Rebuilds a job from stored state, taking every field as given; the checks of `new`
    /// are not made, since the job was valid when it was created.
    pub fn from_persisted(
        id: u128,
        actions: Vec<JobAction>,
        status: JobStatus,
        config: Option<JobConfig>,
        results: Option<ResultMap>,
        error: Option<String>,
        created_at: Timestamp,
        started_at: Option<Timestamp>,
        finished_at: Option<Timestamp>,
    ) -> (job: Job)
        ensures
            job@ == (JobView {
                id,
                actions: actions_view(actions@),
                status,
                config: opt_config(config),
                results: opt_results(results),
                error: opt_text(error),
                created_at,
                started_at,
                finished_at,
            }),
    {
        Job { id, actions, status, config, results, error, created_at, started_at, finished_at }
    }

    /// The error that refuses transition `verb` in the current status.
    fn refuse(&self, verb: &str) -> (e: Error)
        ensures
            e@ == refusal(verb@, self@.status),
    {
        let head = concat("cannot ", verb);
        let head = concat(head.as_str(), " a job in status ");
        Error::InvalidInput(concat(head.as_str(), self.status.name()))
    }

    /// Moves a pending job to in progress and records the current time as its start; any
    /// other job is left unchanged and the call is refused.
    pub fn start(&mut self) -> (r: Result<(), Error>)
        ensures
            r is Ok <==> old(self)@.status == JobStatus::Pending,
            r is Ok ==> start_step(old(self)@, final(self)@),
            r matches Err(e) ==> final(self)@ == old(self)@ && e@ == refusal(
                "start"@,
                old(self)@.status,
            ),
    {
        let at = now();
        self.start_at(at)
    }

    /// Moves a pending job to in progress, started at the given time; any other job is left
    /// unchanged and the call is refused.
    pub fn start_at(&mut self, at: Timestamp) -> (r: Result<(), Error>)
        ensures
            r is Ok <==> old(self)@.status == JobStatus::Pending,
            r is Ok ==> start_step(old(self)@, final(self)@) 
                && final(self)@.started_at == Some(at),
            r matches Err(e) ==> final(self)@ == old(self)@ && e@ == refusal(
                "start"@,
                old(self)@.status,
            ),
    {
        if self.status != JobStatus::Pending {
            return Err(self.refuse("start"));
        }
        self.status = JobStatus::InProgress;
        self.started_at = Some(at);
        Ok(())
    }

    /// Moves a job in progress to completed with the given results and records the current
    /// time as its finish; any other job is left unchanged and the call is refused.
    pub fn complete(&mut self, results: ResultMap) -> (r: Result<(), Error>)
        ensures
            r is Ok <==> old(self)@.status == JobStatus::InProgress,
            r is Ok ==> complete_step(old(self)@, results@, final(self)@),
            r matches Err(e) ==> final(self)@ == old(self)@ && e@ == refusal(
                "complete"@,
                old(self)@.status,
            ),
    {
        let at = now();
        self.complete_at(results, at)
    }

    /// Moves a job in progress to completed with the given results, finished at the given
    /// time; any other job is left unchanged and the call is refused.
    pub fn complete_at(&mut self, results: ResultMap, at: Timestamp) -> (r: Result<(), Error>)
        ensures
            r is Ok <==> old(self)@.status == JobStatus::InProgress,
            r is Ok ==> complete_step(old(self)@, results@, final(self)@) 
                && final(self)@.finished_at == Some(at),
            r matches Err(e) ==> final(self)@ == old(self)@ && e@ == refusal(
                "complete"@,
                old(self)@.status,
            ),
    {
        if self.status != JobStatus::InProgress {
            return Err(self.refuse("complete"));
        }
        self.status = JobStatus::Completed;
        self.results = Some(results);
        self.finished_at = Some(at);
        Ok(())
    }

    /// Moves a job in progress to failed with the given error message and records the
    /// current time as its finish; any other job is left unchanged and the call is refused.
    pub fn fail(&mut self, error: String) -> (r: Result<(), Error>)
        ensures
            r is Ok <==> old(self)@.status == JobStatus::InProgress,
            r is Ok ==> fail_step(old(self)@, error@, final(self)@),
            r matches Err(e) ==> final(self)@ == old(self)@ && e@ == refusal(
                "fail"@,
                old(self)@.status,
            ),
    {
        let at = now();
        self.fail_at(error, at)
    }

    /// Moves a job in progress to failed with the given error message, finished at the given
    /// time; any other job is left unchanged and the call is refused.
    pub fn fail_at(&mut self, error: String, at: Timestamp) -> (r: Result<(), Error>)
        ensures
            r is Ok <==> old(self)@.status == JobStatus::InProgress,
            r is Ok ==> fail_step(old(self)@, error@, final(self)@) 
                && final(self)@.finished_at == Some(at),
            r matches Err(e) ==> final(self)@ == old(self)@ && e@ == refusal(
                "fail"@,
                old(self)@.status,
            ),
    {
        if self.status != JobStatus::InProgress {
            return Err(self.refuse("fail"));
        }
        self.status = JobStatus::Failed;
        self.error = Some(error);
        self.finished_at = Some(at);
        Ok(())
    }

    pub fn id(&self) -> (id: u128)
        ensures
            id == self@.id,
    {
        self.id
    }

    pub fn actions(&self) -> (actions: &[JobAction])
        ensures
            actions_view(actions@) == self@.actions,
    {
        self.actions.as_slice()
    }

    pub fn status(&self) -> (status: JobStatus)
        ensures
            status == self@.status,
    {
        self.status
    }

    pub fn config(&self) -> (config: Option<&JobConfig>)
        ensures
            match config {
                Some(c) => self@.config == Some(c@),
                None => self@.config is None,
            },
    {
        self.config.as_ref()
    }

    pub fn results(&self) -> (results: Option<&ResultMap>)
        ensures
            match results {
                Some(r) => self@.results == Some(r@),
                None => self@.results is None,
            },
    {
        self.results.as_ref()
    }

    pub fn error(&self) -> (error: Option<&str>)
        ensures
            match error {
                Some(e) => self@.error == Some(e@),
                None => self@.error is None,
            },
    {
        match &self.error {
            Some(e) => Some(e.as_str()),
            None => None,
        }
    }

    pub fn created_at(&self) -> (t: Timestamp)
        ensures
            t == self@.created_at,
    {
        self.created_at
    }

    pub fn started_at(&self) -> (t: Option<Timestamp>)
        ensures
            t == self@.started_at,
    {
        self.started_at
    }

    pub fn finished_at(&self) -> (t: Option<Timestamp>)
        ensures
            t == self@.finished_at,
    {
        self.finished_at
    }
}

/// A started job keeps the lifecycle consistent and keeps its identity.
pub proof fn lemma_start_keeps_lifecycle(before: JobView, after: JobView)
    requires
        lifecycle_consistent(before),
        start_step(before, after),
    ensures
        lifecycle_consistent(after),
        same_identity(before, after),
{
}

/// A completed job keeps the lifecycle consistent and keeps its identity.
pub proof fn lemma_complete_keeps_lifecycle(
    before: JobView,
    results: Map<Seq<char>, Seq<char>>,
    after: JobView,
)
    requires
        lifecycle_consistent(before),
        complete_step(before, results, after),
    ensures
        lifecycle_consistent(after),
        same_identity(before, after),
{
}

/// A failed job keeps the lifecycle consistent and keeps its identity.
pub proof fn lemma_fail_keeps_lifecycle(before: JobView, error: Seq<char>, after: JobView)
    requires
        lifecycle_consistent(before),
        fail_step(before, error, after),
    ensures
        lifecycle_consistent(after),
        same_identity(before, after),
{
}

/// A completed or failed job admits no further transition.
pub proof fn lemma_terminal_job_is_final(
    job: JobView,
    results: Map<Seq<char>, Seq<char>>,
    error: Seq<char>,
    after: JobView,
)
    requires
        is_terminal(job.status),
    ensures
        !start_step(job, after),
        !complete_step(job, results, after),
        !fail_step(job, error, after),
{
}

/// The only way into a terminal status is from in progress, and the only way into in
/// progress is from pending: the lifecycle runs Pending, InProgress, then Completed or Failed.
pub proof fn lemma_lifecycle_order(
    before: JobView,
    results: Map<Seq<char>, Seq<char>>,
    error: Seq<char>,
    after: JobView,
)
    ensures
        start_step(before, after) ==> before.status == JobStatus::Pending && after.status
            == JobStatus::InProgress,
        complete_step(before, results, after) ==> before.status == JobStatus::InProgress
            && after.status == JobStatus::Completed,
        fail_step(before, error, after) ==> before.status == JobStatus::InProgress
            && after.status == JobStatus::Failed,
{
}

} // verus!
