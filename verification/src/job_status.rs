use vstd::prelude::*;

verus! {

/// Where a job is in its lifecycle.
#[derive(PartialEq, Eq, Structural, Clone, Copy, Debug)]
pub enum JobStatus {
    Pending,
    InProgress,
    Completed,
    Failed,
}

/// The name of a status, as the job's error messages print it.
pub open spec fn status_name_spec(status: JobStatus) -> Seq<char> {
    match status {
        JobStatus::Pending => "Pending"@,
        JobStatus::InProgress => "InProgress"@,
        JobStatus::Completed => "Completed"@,
        JobStatus::Failed => "Failed"@,
    }
}

/// A job in a terminal status accepts no further transition.
pub open spec fn is_terminal(status: JobStatus) -> bool {
    status == JobStatus::Completed || status == JobStatus::Failed
}

impl JobStatus {
    /// The variant's name, as `{:?}` prints it.
    pub fn name(&self) -> (name: &'static str)
        ensures
            name@ == status_name_spec(*self),
    {
        match self {
            JobStatus::Pending => "Pending",
            JobStatus::InProgress => "InProgress",
            JobStatus::Completed => "Completed",
            JobStatus::Failed => "Failed",
        }
    }
}

} // verus!
