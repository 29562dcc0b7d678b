use vstd::prelude::*;
use crate::external::Timestamp;
use crate::job::Job;
use crate::job_action::{JobAction, actions_view, opt_text};
use crate::job_config::{JobConfig, opt_config};
use crate::job_status::JobStatus;

verus! {

/// The answer to a created job: its id.
#[derive(Debug)]
pub struct CreateJobResponse {
    pub id: u128,
}

/// The answer to a job lookup: everything about the job but its results.
#[derive(Debug)]
pub struct JobResponse {
    pub id: u128,
    pub status: JobStatus,
    pub actions: Vec<JobAction>,
    pub config: Option<JobConfig>,
    pub error: Option<String>,
    pub created_at: Timestamp,
    pub started_at: Option<Timestamp>,
    pub finished_at: Option<Timestamp>,
}

impl JobResponse {
    /// The answer that describes `job`.
    pub fn from_job(job: &Job) -> (r: JobResponse)
        ensures
            r.id == job@.id,
            r.status == job@.status,
            actions_view(r.actions@) == job@.actions,
            opt_config(r.config) == job@.config,
            opt_text(r.error) == job@.error,
            r.created_at == job@.created_at,
            r.started_at == job@.started_at,
            r.finished_at == job@.finished_at,
    {
        let mut actions: Vec<JobAction> = Vec::new();
        let source = job.actions();
        let mut i: usize = 0;
        while i < source.len()
            invariant
                i <= source@.len(),
                actions@.len() == i,
                forall|j: int| 0 <= j < i ==> actions@[j]@ == source@[j]@,
            decreases source@.len() - i,
        {
            actions.push(source[i].clone());
            i = i + 1;
        }
        assert(actions_view(actions@) =~= actions_view(source@));
        JobResponse {
            id: job.id(),
            status: job.status(),
            actions,
            config: match job.config() {
                Some(c) => Some(c.clone()),
                None => None,
            },
            error: match job.error() {
                Some(e) => Some(e.to_owned()),
                None => None,
            },
            created_at: job.created_at(),
            started_at: job.started_at(),
            finished_at: job.finished_at(),
        }
    }
}

} // verus!
