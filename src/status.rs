use vstd::prelude::*;

verus! {

/// Progress is kept in thousandths: `1000` stands for a finished fetch.
pub const PROGRESS_SCALE: u16 = 1000;

/// Status of an import job.
///
/// - `Queued`: accepted, no worker has reported yet
/// - `InProgress`: a worker is fetching the artifact
/// - `Completed`: the artifact is available locally (`info` holds its path)
/// - `Failed`: the fetch failed (`error` holds the reason)
///
/// `Completed` and `Failed` are terminal.
#[derive(Debug, PartialEq, Eq)]
pub enum ImportJobStatus {
    Queued,
    InProgress { progress_permille: u16 },
    Completed { info: Option<String> },
    Failed { error: Option<String> },
}

impl Clone for ImportJobStatus {
    fn clone(&self) -> (r: Self)
        ensures
            r == *self,
    {
        match self {
            ImportJobStatus::Queued => ImportJobStatus::Queued,
            ImportJobStatus::InProgress { progress_permille } => ImportJobStatus::InProgress {
                progress_permille: *progress_permille,
            },
            ImportJobStatus::Completed { info } => ImportJobStatus::Completed { info: info.clone() },
            ImportJobStatus::Failed { error } => ImportJobStatus::Failed { error: error.clone() },
        }
    }
}

impl ImportJobStatus {
    /// A progress value lies within `0..=PROGRESS_SCALE`.
    pub open spec fn wf(self) -> bool {
        match self {
            ImportJobStatus::InProgress { progress_permille } => progress_permille <= PROGRESS_SCALE,
            _ => true,
        }
    }

    pub open spec fn spec_is_terminal(self) -> bool {
        self is Completed || self is Failed
    }

    /// Position in the lifecycle `Queued -> InProgress* -> {Completed | Failed}`.
    pub open spec fn stage(self) -> nat {
        match self {
            ImportJobStatus::Queued => 0,
            ImportJobStatus::InProgress { .. } => 1,
            _ => 2,
        }
    }

    /// A status may move on while it is not terminal, and never back to `Queued`.
    pub open spec fn spec_can_become(self, next: ImportJobStatus) -> bool {
        &&& !self.spec_is_terminal()
        &&& !(next is Queued)
        &&& next.wf()
    }

    pub fn is_terminal(&self) -> (r: bool)
        ensures
            r == self.spec_is_terminal(),
    {
        match self {
            ImportJobStatus::Completed { .. } | ImportJobStatus::Failed { .. } => true,
            _ => false,
        }
    }

    pub fn can_become(&self, next: &ImportJobStatus) -> (r: bool)
        ensures
            r == self.spec_can_become(*next),
    {
        if self.is_terminal() {
            return false;
        }
        match next {
            ImportJobStatus::Queued => false,
            ImportJobStatus::InProgress { progress_permille } => *progress_permille <= PROGRESS_SCALE,
            _ => true,
        }
    }
}

} // verus!
