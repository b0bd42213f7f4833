use vstd::prelude::*;

verus! {

/// How often the job is queried before it is declared failed, and how long
/// to wait between two queries.
#[derive(Clone, Copy, Debug, PartialEq, Eq)]
pub struct RetryPolicy {
    pub max_attempts: u32,
    pub backoff_secs: u64,
}

/// What one query of the cluster client said about the job.
#[derive(Clone, Debug, PartialEq, Eq)]
pub enum JobStatus {
    Ready,
    NotReady,
    QueryFailed(String),
}

/// What to do after a query.
#[derive(Clone, Copy, Debug, PartialEq, Eq)]
pub enum PollDecision {
    Ready,
    RetryAfter(u64),
    GiveUp,
}

pub open spec fn poll_decision(policy: RetryPolicy, attempts: u32, status: JobStatus) -> PollDecision {
    match status {
        JobStatus::Ready => PollDecision::Ready,
        JobStatus::QueryFailed(_) => PollDecision::GiveUp,
        JobStatus::NotReady => if attempts < policy.max_attempts {
            PollDecision::RetryAfter(policy.backoff_secs)
        } else {
            PollDecision::GiveUp
        },
    }
}

impl RetryPolicy {
    /// The decision after `attempts` queries, the last of which said `status`:
    /// only an explicit ready counts; a failed query ends the polling; a job
    /// not ready yet is queried again while the budget lasts.
    pub fn next(&self, attempts: u32, status: &JobStatus) -> (r: PollDecision)
        ensures
            r == poll_decision(*self, attempts, *status),
    {
        match status {
            JobStatus::Ready => PollDecision::Ready,
            JobStatus::QueryFailed(_) => PollDecision::GiveUp,
            JobStatus::NotReady => if attempts < self.max_attempts {
                PollDecision::RetryAfter(self.backoff_secs)
            } else {
                PollDecision::GiveUp
            },
        }
    }
}

} // verus!
