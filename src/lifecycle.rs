//! What holds of the job table over any sequence of submissions and reports.

use vstd::prelude::*;

use crate::locator::ImportJob;
use crate::status::ImportJobStatus;
use crate::store::{queued_entry, spec_apply, ImportJobId, JobEntry, StatusUpdate};

verus! {

/// Something that changes the job table: a submission under an identifier, or
/// a worker's status report.
pub enum Event {
    Submitted(ImportJobId, ImportJob),
    Reported(StatusUpdate),
}

/// The table after one event. A submission under a taken identifier is refused.
pub open spec fn step(m: Map<ImportJobId, JobEntry>, e: Event) -> Map<ImportJobId, JobEntry> {
    match e {
        Event::Submitted(id, task) => if m.contains_key(id) {
            m
        } else {
            m.insert(id, queued_entry(task))
        },
        Event::Reported(u) => spec_apply(m, u),
    }
}

/// The table after a sequence of events, in order.
pub open spec fn run(m: Map<ImportJobId, JobEntry>, events: Seq<Event>) -> Map<ImportJobId, JobEntry>
    decreases events.len(),
{
    if events.len() == 0 {
        m
    } else {
        step(run(m, events.drop_last()), events.last())
    }
}

/// The identifiers of the submissions among `events`, in order.
pub open spec fn submitted_ids(events: Seq<Event>) -> Seq<ImportJobId>
    decreases events.len(),
{
    if events.len() == 0 {
        Seq::empty()
    } else {
        let rest = submitted_ids(events.drop_last());
        match events.last() {
            Event::Submitted(id, _) => rest.push(id),
            Event::Reported(_) => rest,
        }
    }
}

/// Each submission among `events` uses an identifier that is not in the table
/// at that point, as `JobStore::submit` guarantees of every identifier it returns.
pub open spec fn submissions_fresh(m: Map<ImportJobId, JobEntry>, events: Seq<Event>) -> bool
    decreases events.len(),
{
    if events.len() == 0 {
        true
    } else {
        &&& submissions_fresh(m, events.drop_last())
        &&& match events.last() {
            Event::Submitted(id, _) => !run(m, events.drop_last()).contains_key(id),
            Event::Reported(_) => true,
        }
    }
}

/// No event removes a job or changes what it asked for, so the number of jobs
/// never goes down.
pub proof fn lemma_entries_never_removed(m: Map<ImportJobId, JobEntry>, events: Seq<Event>)
    requires
        m.dom().finite(),
    ensures
        m.dom().subset_of(run(m, events).dom()),
        run(m, events).dom().finite(),
        m.dom().len() <= run(m, events).dom().len(),
        forall|id: ImportJobId| #[trigger]
            m.contains_key(id) ==> run(m, events)[id].task == m[id].task,
    decreases events.len(),
{
    if events.len() > 0 {
        let prev = run(m, events.drop_last());
        lemma_entries_never_removed(m, events.drop_last());
        match events.last() {
            Event::Submitted(id, task) => {
                if !prev.contains_key(id) {
                    assert(prev.insert(id, queued_entry(task)).dom() == prev.dom().insert(id));
                }
            },
            Event::Reported(u) => {
                if prev.contains_key(u.job) && prev[u.job].status.spec_can_become(u.status) {
                    assert(spec_apply(prev, u).dom() =~= prev.dom());
                }
            },
        }
        vstd::set_lib::lemma_len_subset(m.dom(), run(m, events).dom());
    }
}

/// A job's status only moves forward through `Queued -> InProgress* ->
/// {Completed | Failed}`: its stage never decreases, and a terminal status never
/// changes again.
pub proof fn lemma_status_never_regresses(
    m: Map<ImportJobId, JobEntry>,
    events: Seq<Event>,
    id: ImportJobId,
)
    requires
        m.contains_key(id),
    ensures
        run(m, events).contains_key(id),
        m[id].status.stage() <= run(m, events)[id].status.stage(),
        m[id].status.spec_is_terminal() ==> run(m, events)[id].status == m[id].status,
    decreases events.len(),
{
    if events.len() > 0 {
        lemma_status_never_regresses(m, events.drop_last(), id);
        let prev = run(m, events.drop_last());
        match events.last() {
            Event::Submitted(_, _) => {},
            Event::Reported(u) => {
                if u.job == id && prev[id].status.spec_can_become(u.status) {
                    assert(prev[id].status.stage() <= u.status.stage());
                }
            },
        }
    }
}

/// Submissions under fresh identifiers never hand out the same identifier twice,
/// nor one that was in the table before.
pub proof fn lemma_submitted_ids_distinct(m: Map<ImportJobId, JobEntry>, events: Seq<Event>)
    requires
        submissions_fresh(m, events),
    ensures
        submitted_ids(events).no_duplicates(),
        forall|i: int|
            0 <= i < submitted_ids(events).len() ==> !m.contains_key(#[trigger] submitted_ids(events)[i])
                && run(m, events).contains_key(submitted_ids(events)[i]),
    decreases events.len(),
{
    if events.len() > 0 {
        let prefix = events.drop_last();
        lemma_submitted_ids_distinct(m, prefix);
        let prev = run(m, prefix);
        let rest = submitted_ids(prefix);
        match events.last() {
            Event::Submitted(id, task) => {
                let ids = rest.push(id);
                assert forall|i: int| 0 <= i < rest.len() implies rest[i] != id by {
                    assert(prev.contains_key(rest[i]));
                }
                assert forall|i: int| 0 <= i < ids.len() implies !m.contains_key(#[trigger] ids[i])
                    && run(m, events).contains_key(ids[i]) by {
                    if i < rest.len() {
                        assert(ids[i] == rest[i]);
                    } else {
                        lemma_entries_never_removed_dom(m, prefix, id);
                    }
                }
            },
            Event::Reported(u) => {
                assert forall|i: int| 0 <= i < rest.len() implies run(m, events).contains_key(
                    #[trigger] rest[i],
                ) by {
                    assert(prev.contains_key(rest[i]));
                }
            },
        }
    }
}

proof fn lemma_entries_never_removed_dom(m: Map<ImportJobId, JobEntry>, events: Seq<Event>, id: ImportJobId)
    requires
        !run(m, events).contains_key(id),
    ensures
        !m.contains_key(id),
    decreases events.len(),
{
    if events.len() > 0 {
        let prev = run(m, events.drop_last());
        match events.last() {
            Event::Submitted(_, _) => {},
            Event::Reported(u) => {},
        }
        assert(!prev.contains_key(id));
        lemma_entries_never_removed_dom(m, events.drop_last(), id);
    }
}

/// A job that is queued ends in exactly the worker's terminal status once its
/// worker's two reports (in progress at zero, then the outcome) are applied.
pub proof fn lemma_worker_reports_finish_job(
    m: Map<ImportJobId, JobEntry>,
    id: ImportJobId,
    outcome: ImportJobStatus,
)
    requires
        m.contains_key(id),
        m[id].status == ImportJobStatus::Queued,
        outcome.spec_is_terminal(),
    ensures
        ({
            let events = seq![
                Event::Reported(StatusUpdate { job: id, status: ImportJobStatus::InProgress { progress_permille: 0 } }),
                Event::Reported(StatusUpdate { job: id, status: outcome }),
            ];
            &&& run(m, events)[id].status == outcome
            &&& run(m, events)[id].task == m[id].task
        }),
{
    let events = seq![
        Event::Reported(StatusUpdate { job: id, status: ImportJobStatus::InProgress { progress_permille: 0 } }),
        Event::Reported(StatusUpdate { job: id, status: outcome }),
    ];
    assert(events.drop_last().drop_last() =~= Seq::<Event>::empty());
    assert(events.drop_last() =~= seq![events[0]]);
    assert(run(m, events.drop_last().drop_last()) == m);
    let m1 = step(m, events[0]);
    assert(run(m, events.drop_last()) == m1);
    assert(m1[id].status == (ImportJobStatus::InProgress { progress_permille: 0 }));
    assert(run(m, events) == step(m1, events[1]));
}

/// Running two sequences of events one after the other is running their
/// concatenation.
pub proof fn lemma_run_concat(m: Map<ImportJobId, JobEntry>, a: Seq<Event>, b: Seq<Event>)
    ensures
        run(m, a + b) == run(run(m, a), b),
    decreases b.len(),
{
    if b.len() == 0 {
        assert(a + b =~= a);
    } else {
        lemma_run_concat(m, a, b.drop_last());
        assert((a + b).drop_last() =~= a + b.drop_last());
        assert((a + b).last() == b.last());
    }
}

/// At any two points of one sequence of events, the later table holds every
/// job of the earlier one, the same number of jobs or more, each job at the
/// same stage or a later one, and each terminal status unchanged.
pub proof fn lemma_history_moves_forward(
    m: Map<ImportJobId, JobEntry>,
    events: Seq<Event>,
    i: int,
    j: int,
    id: ImportJobId,
)
    requires
        m.dom().finite(),
        0 <= i <= j <= events.len(),
    ensures
        run(m, events.take(i)).dom().subset_of(run(m, events.take(j)).dom()),
        run(m, events.take(i)).dom().len() <= run(m, events.take(j)).dom().len(),
        run(m, events.take(i)).contains_key(id) ==> {
            let before = run(m, events.take(i))[id].status;
            let after = run(m, events.take(j))[id].status;
            &&& before.stage() <= after.stage()
            &&& before.spec_is_terminal() ==> after == before
        },
{
    let early = run(m, events.take(i));
    let gap = events.subrange(i, j);
    assert(events.take(j) =~= events.take(i) + gap);
    lemma_run_concat(m, events.take(i), gap);
    lemma_entries_never_removed(m, events.take(i));
    lemma_entries_never_removed(early, gap);
    if early.contains_key(id) {
        lemma_status_never_regresses(early, gap, id);
    }
}

} // verus!
