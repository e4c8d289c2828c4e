use std::collections::HashMap;
use vstd::prelude::*;

use crate::lifecycle::{step, Event};
use crate::locator::{ImportJob, Locator, SubmissionError};
use crate::status::ImportJobStatus;

verus! {

broadcast use vstd::std_specs::hash::group_hash_axioms;

/// Identifier of an import job: a random 128-bit value, never reused.
pub type ImportJobId = u128;

/// Relies on `uuid::Uuid::new_v4` and `uuid::Uuid::as_u128`: a random
/// identifier with the version field 4 and the RFC 4122 variant bits `10`.
#[verifier::external_body]
fn random_job_id() -> (r: u128)
    ensures
        (r >> 76u128) & 0xfu128 == 4,
        (r >> 62u128) & 0x3u128 == 2,
{
    uuid::Uuid::new_v4().as_u128()
}

/// Half of the identifier space: the search for a free identifier starts below it.
const HALF_ID_SPACE: u128 = 0x8000_0000_0000_0000_0000_0000_0000_0000;

/// The `n` consecutive identifiers from `start` on.
spec fn id_run(start: u128, n: nat) -> Set<u128>
    decreases n,
{
    if n == 0 {
        Set::empty()
    } else {
        id_run(start, (n - 1) as nat).insert((start + n - 1) as u128)
    }
}

proof fn lemma_id_run(start: u128, n: nat)
    requires
        start + n <= u128::MAX + 1,
    ensures
        id_run(start, n).finite(),
        id_run(start, n).len() == n,
        forall|x: u128| #[trigger] id_run(start, n).contains(x) <==> start <= x < start + n,
    decreases n,
{
    if n > 0 {
        lemma_id_run(start, (n - 1) as nat);
    }
}

/// The table's record of one job: what was asked for, and how far it got.
#[derive(Debug)]
pub struct JobEntry {
    pub task: ImportJob,
    pub status: ImportJobStatus,
}

impl Clone for JobEntry {
    fn clone(&self) -> (r: Self)
        ensures
            r == *self,
    {
        JobEntry { task: self.task.clone(), status: self.status.clone() }
    }
}

/// A status report of a worker for its job.
#[derive(Debug)]
pub struct StatusUpdate {
    pub job: ImportJobId,
    pub status: ImportJobStatus,
}

/// Why a status report was not applied.
#[derive(Debug, PartialEq, Eq)]
pub enum ApplyError {
    /// No job with this identifier was ever submitted.
    UnknownJob,
    /// The job's current status may not move to the reported one.
    IllegalTransition,
}

/// A lookup of an identifier that was never submitted.
#[derive(Debug, PartialEq, Eq)]
pub enum LookupError {
    NotFound,
}

/// The entry a submission creates.
pub open spec fn queued_entry(task: ImportJob) -> JobEntry {
    JobEntry { task, status: ImportJobStatus::Queued }
}

/// The table after a status report: the job's status moves where the move is
/// permitted, and nothing else changes.
pub open spec fn spec_apply(m: Map<ImportJobId, JobEntry>, u: StatusUpdate) -> Map<ImportJobId, JobEntry> {
    if m.contains_key(u.job) && m[u.job].status.spec_can_become(u.status) {
        m.insert(u.job, JobEntry { task: m[u.job].task, status: u.status })
    } else {
        m
    }
}

/// The job's statuses, keyed by identifier.
pub open spec fn status_map(m: Map<ImportJobId, JobEntry>) -> Map<ImportJobId, ImportJobStatus> {
    Map::new(|id: ImportJobId| m.contains_key(id), |id: ImportJobId| m[id].status)
}

/// The table of import jobs. Entries are added at submission and never removed;
/// only their status changes.
pub struct JobStore {
    entries: HashMap<ImportJobId, JobEntry>,
    /// Identifiers in order of submission.
    order: Vec<ImportJobId>,
}

impl View for JobStore {
    type V = Map<ImportJobId, JobEntry>;

    closed spec fn view(&self) -> Map<ImportJobId, JobEntry> {
        self.entries@
    }
}

impl JobStore {
    pub closed spec fn wf(&self) -> bool {
        &&& self.order@.no_duplicates()
        &&& self.order@.to_set() == self.entries@.dom()
        &&& self.order@.len() == self.entries@.dom().len()
    }

    pub fn new() -> (r: Self)
        ensures
            r.wf(),
            r@ == Map::<ImportJobId, JobEntry>::empty(),
    {
        let r = JobStore { entries: HashMap::new(), order: Vec::new() };
        assert(r.order@.to_set() =~= r.entries@.dom());
        r
    }

    /// Number of jobs ever submitted.
    pub fn len(&self) -> (r: usize)
        requires
            self.wf(),
        ensures
            r == self@.dom().len(),
    {
        self.order.len()
    }

    pub fn contains(&self, id: ImportJobId) -> (r: bool)
        ensures
            r == self@.contains_key(id),
    {
        self.entries.contains_key(&id)
    }

    /// An identifier that no job holds yet: `preferred` itself where it is free,
    /// else the first free one counting up from `preferred` folded into the
    /// lower half of the identifier space.
    pub fn fresh_id(&self, preferred: ImportJobId) -> (r: ImportJobId)
        requires
            self.wf(),
        ensures
            !self@.contains_key(r),
            !self@.contains_key(preferred) ==> r == preferred,
    {
        if !self.entries.contains_key(&preferred) {
            return preferred;
        }
        let n = self.order.len();
        let base: u128 = if preferred < HALF_ID_SPACE {
            preferred
        } else {
            preferred - HALF_ID_SPACE
        };
        let mut candidate: u128 = base;
        let ghost mut k: nat = 0;
        while self.entries.contains_key(&candidate)
            invariant
                self.wf(),
                n == self@.dom().len(),
                base < HALF_ID_SPACE,
                candidate == base + k,
                k <= n,
                forall|x: u128| base <= x < base + k ==> #[trigger] self@.contains_key(x),
            decreases n - k,
        {
            proof {
                lemma_id_run(base, k + 1);
                assert(id_run(base, k + 1).subset_of(self@.dom()));
                vstd::set_lib::lemma_len_subset(id_run(base, k + 1), self@.dom());
            }
            candidate = candidate + 1;
            proof {
                k = k + 1;
            }
        }
        candidate
    }

    /// Records a new job under `id` with status `Queued`, where `id` is fresh
    /// and the job can be named once fetched.
    pub fn submit_with_id(&mut self, locator: Locator, id: ImportJobId) -> (r: Result<
        ImportJobId,
        SubmissionError,
    >)
        requires
            old(self).wf(),
        ensures
            final(self).wf(),
            !ImportJob::spec_from_locator(locator).is_valid() ==> r == Err::<
                ImportJobId,
                SubmissionError,
            >(SubmissionError::NoFileName),
            ImportJob::spec_from_locator(locator).is_valid() && old(self)@.contains_key(id) ==> r
                == Err::<ImportJobId, SubmissionError>(SubmissionError::DuplicateId),
            ImportJob::spec_from_locator(locator).is_valid() && !old(self)@.contains_key(id) ==> r
                == Ok::<ImportJobId, SubmissionError>(id),
            r is Ok ==> final(self)@ == old(self)@.insert(
                id,
                queued_entry(ImportJob::spec_from_locator(locator)),
            ),
            r is Ok ==> final(self)@ == step(
                old(self)@,
                Event::Submitted(id, ImportJob::spec_from_locator(locator)),
            ),
            r is Err ==> final(self)@ == old(self)@,
    {
        let task = ImportJob::from_locator(locator);
        match task.model_name() {
            Err(e) => {
                return Err(e);
            },
            Ok(_) => {},
        }
        if self.entries.contains_key(&id) {
            return Err(SubmissionError::DuplicateId);
        }
        let ghost old_order = self.order@;
        self.entries.insert(id, JobEntry { task, status: ImportJobStatus::Queued });
        self.order.push(id);
        proof {
            old_order.lemma_push_to_set_commute(id);
            assert(self.order@ == old_order.push(id));
            assert(self.order@.no_duplicates()) by {
                assert forall|i: int, j: int|
                    0 <= i < self.order@.len() && 0 <= j < self.order@.len() && i != j
                        implies self.order@[i] != self.order@[j] by {
                    if i < old_order.len() && j < old_order.len() {
                    } else if i == old_order.len() {
                        assert(old_order.to_set().contains(old_order[j]));
                    } else {
                        assert(old_order.to_set().contains(old_order[i]));
                    }
                }
            }
        }
        Ok(id)
    }

    /// Records a new job under a random identifier, or under another free one
    /// should the drawn identifier be taken. Fails only for a locator whose path
    /// has no file name.
    pub fn submit(&mut self, locator: Locator) -> (r: Result<ImportJobId, SubmissionError>)
        requires
            old(self).wf(),
        ensures
            final(self).wf(),
            !ImportJob::spec_from_locator(locator).is_valid() ==> r == Err::<
                ImportJobId,
                SubmissionError,
            >(SubmissionError::NoFileName),
            ImportJob::spec_from_locator(locator).is_valid() ==> r is Ok,
            r matches Ok(id) ==> !old(self)@.contains_key(id) && final(self)@ == old(self)@.insert(
                id,
                queued_entry(ImportJob::spec_from_locator(locator)),
            ),
            r matches Ok(id) ==> final(self)@ == step(
                old(self)@,
                Event::Submitted(id, ImportJob::spec_from_locator(locator)),
            ),
            r is Err ==> final(self)@ == old(self)@,
    {
        let drawn = random_job_id();
        let id = self.fresh_id(drawn);
        self.submit_with_id(locator, id)
    }

    /// The latest status of a job.
    pub fn get_status(&self, id: ImportJobId) -> (r: Result<ImportJobStatus, LookupError>)
        ensures
            self@.contains_key(id) ==> r == Ok::<ImportJobStatus, LookupError>(self@[id].status),
            !self@.contains_key(id) ==> r == Err::<ImportJobStatus, LookupError>(
                LookupError::NotFound,
            ),
    {
        match self.entries.get(&id) {
            Some(entry) => Ok(entry.status.clone()),
            None => Err(LookupError::NotFound),
        }
    }

    /// A snapshot of every job's status.
    pub fn list_status(&self) -> (r: HashMap<ImportJobId, ImportJobStatus>)
        requires
            self.wf(),
        ensures
            r@ == status_map(self@),
            r@.dom() == self@.dom(),
    {
        let mut out: HashMap<ImportJobId, ImportJobStatus> = HashMap::new();
        let mut i: usize = 0;
        while i < self.order.len()
            invariant
                self.wf(),
                0 <= i <= self.order@.len(),
                out@ == status_map(self@).restrict(self.order@.subrange(0, i as int).to_set()),
            decreases self.order@.len() - i,
        {
            let id = self.order[i];
            assert(self.order@.to_set().contains(id));
            let entry = self.entries.get(&id).unwrap();
            out.insert(id, entry.status.clone());
            proof {
                let next = self.order@.subrange(0, i + 1);
                assert(next == self.order@.subrange(0, i as int).push(id));
                self.order@.subrange(0, i as int).lemma_push_to_set_commute(id);
                assert(out@ =~= status_map(self@).restrict(next.to_set()));
            }
            i = i + 1;
        }
        proof {
            assert(self.order@.subrange(0, self.order@.len() as int) == self.order@);
            assert(out@ =~= status_map(self@));
        }
        out
    }

    /// Applies a worker's status report. Returns the job's descriptor when the
    /// report was applied.
    pub fn apply(&mut self, update: StatusUpdate) -> (r: Result<ImportJob, ApplyError>)
        requires
            old(self).wf(),
        ensures
            final(self).wf(),
            final(self)@ == spec_apply(old(self)@, update),
            final(self)@ == step(old(self)@, Event::Reported(update)),
            final(self)@.dom() == old(self)@.dom(),
            !old(self)@.contains_key(update.job) ==> r == Err::<ImportJob, ApplyError>(
                ApplyError::UnknownJob,
            ),
            old(self)@.contains_key(update.job) && !old(self)@[update.job].status.spec_can_become(
                update.status,
            ) ==> r == Err::<ImportJob, ApplyError>(ApplyError::IllegalTransition),
            old(self)@.contains_key(update.job) && old(self)@[update.job].status.spec_can_become(
                update.status,
            ) ==> r == Ok::<ImportJob, ApplyError>(old(self)@[update.job].task),
    {
        let task = match self.entries.get(&update.job) {
            None => {
                return Err(ApplyError::UnknownJob);
            },
            Some(entry) => {
                if !entry.status.can_become(&update.status) {
                    return Err(ApplyError::IllegalTransition);
                }
                entry.task.clone()
            },
        };
        let result = task.clone();
        self.entries.insert(update.job, JobEntry { task, status: update.status });
        proof {
            assert(self.entries@.dom() =~= old(self).entries@.dom());
        }
        Ok(result)
    }
}

} // verus!
