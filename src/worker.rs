use vstd::prelude::*;

use crate::status::ImportJobStatus;
use crate::store::{ImportJobId, StatusUpdate};

verus! {

/// The report a worker sends before it starts fetching: in progress, at zero.
pub fn start_report(job: ImportJobId) -> (r: StatusUpdate)
    ensures
        r.job == job,
        r.status == (ImportJobStatus::InProgress { progress_permille: 0 }),
{
    StatusUpdate { job, status: ImportJobStatus::InProgress { progress_permille: 0 } }
}

/// The one terminal report a worker sends once the fetch has ended: the local
/// path of the artifact, or the reason the fetch failed.
pub fn outcome_report(job: ImportJobId, outcome: Result<String, String>) -> (r: StatusUpdate)
    ensures
        r.job == job,
        r.status.spec_is_terminal(),
        match outcome {
            Ok(path) => r.status == (ImportJobStatus::Completed { info: Some(path) }),
            Err(message) => r.status == (ImportJobStatus::Failed { error: Some(message) }),
        },
{
    let status = match outcome {
        Ok(path) => ImportJobStatus::Completed { info: Some(path) },
        Err(message) => ImportJobStatus::Failed { error: Some(message) },
    };
    StatusUpdate { job, status }
}

} // verus!
