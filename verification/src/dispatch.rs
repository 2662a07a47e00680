//! The dispatcher's logic: which records the fan-out spawns a task
//! for, and how the spawned tasks' terminal states aggregate into the
//! batch's result.

use crate::records::Package;
use crate::task::TaskOutcome;
use vstd::prelude::*;

verus! {

/// A lockfile entry the dispatcher spawns a task for: every record but
/// the synthetic root, whose path key is the empty string.
pub open spec fn spec_nonroot(entry: (String, Package)) -> bool {
    entry.0@.len() != 0
}

/// The entries the dispatcher fans out over, in collection order.
pub open spec fn spec_eligible(entries: Seq<(String, Package)>) -> Seq<(String, Package)> {
    entries.filter(|e: (String, Package)| spec_nonroot(e))
}

proof fn lemma_eligible_push(t: Seq<(String, Package)>, e: (String, Package))
    ensures
        spec_eligible(t.push(e)) == if spec_nonroot(e) {
            spec_eligible(t).push(e)
        } else {
            spec_eligible(t)
        },
{
    reveal(Seq::filter);
    assert(t.push(e).drop_last() =~= t);
    assert(t.push(e).last() == e);
}

/// Selects the records to spawn download tasks for, dropping the
/// synthetic root record and keeping every other entry, in order.
pub fn eligible_records(entries: Vec<(String, Package)>) -> (r: Vec<(String, Package)>)
    ensures
        r@ == spec_eligible(entries@),
{
    let mut out: Vec<(String, Package)> = Vec::new();
    let ghost all = entries@;
    for entry in it: entries.into_iter()
        invariant
            it.seq() == all,
            0 <= it.index() <= all.len(),
            out@ == spec_eligible(all.take(it.index())),
    {
        let ghost done = all.take(it.index());
        let is_root = entry.0.as_str().is_empty();
        if !is_root {
            out.push(entry);
        }
        proof {
            assert(all.take(it.index() + 1) =~= done.push(entry));
            lemma_eligible_push(done, entry);
        }
    }
    proof {
        assert(all.take(all.len() as int) =~= all);
    }
    out
}

/// The fan-out spawns exactly the non-root records: every entry it
/// keeps has a non-empty path key, every entry with a non-empty path
/// key is kept, and nothing is spawned twice for one entry.
pub proof fn lemma_eligible_members(entries: Seq<(String, Package)>)
    ensures
        forall|i: int|
            0 <= i < spec_eligible(entries).len() ==> spec_nonroot(
                #[trigger] spec_eligible(entries)[i],
            ),
        forall|i: int|
            0 <= i < entries.len() && spec_nonroot(#[trigger] entries[i]) ==> spec_eligible(
                entries,
            ).contains(entries[i]),
        spec_eligible(entries).len() <= entries.len(),
{
    broadcast use vstd::seq_lib::group_filter_ensures;

}

/// Skip-root: a collection holding only root records dispatches no
/// task at all, and with no task comes no network call.
pub proof fn lemma_root_only_spawns_none(entries: Seq<(String, Package)>)
    requires
        forall|i: int| 0 <= i < entries.len() ==> (#[trigger] entries[i]).0@.len() == 0,
    ensures
        spec_eligible(entries) == Seq::<(String, Package)>::empty(),
    decreases entries.len(),
{
    reveal(Seq::filter);
    if entries.len() == 0 {
        assert(spec_eligible(entries) =~= Seq::<(String, Package)>::empty());
    } else {
        assert(forall|i: int|
            0 <= i < entries.drop_last().len() ==> (#[trigger] entries.drop_last()[i]).0@.len()
                == 0);
        lemma_root_only_spawns_none(entries.drop_last());
        assert(entries.last() == entries[entries.len() - 1]);
    }
}

/// Aggregate of one dispatcher run over a whole batch.
pub struct RunResult {
    /// How many download tasks the run spawned.
    pub tasks_spawned: usize,
    /// Wall-clock time the whole batch took, in nanoseconds.
    pub elapsed_nanos: u128,
}

/// Finds the first fatally failed task in completion order, if any.
pub fn first_failure(outcomes: &Vec<TaskOutcome>) -> (r: Option<usize>)
    ensures
        match r {
            Some(i) => {
                &&& i < outcomes@.len()
                &&& outcomes@[i as int] is Failed
                &&& forall|j: int| 0 <= j < i ==> outcomes@[j] is Completed
            },
            None => forall|j: int| 0 <= j < outcomes@.len() ==> outcomes@[j] is Completed,
        },
{
    let mut i: usize = 0;
    while i < outcomes.len()
        invariant
            i <= outcomes@.len(),
            forall|j: int| 0 <= j < i ==> outcomes@[j] is Completed,
        decreases outcomes@.len() - i,
    {
        if let TaskOutcome::Failed(_) = &outcomes[i] {
            return Some(i);
        }
        i += 1;
    }
    None
}

/// The batch result: a run result when every task completed, else
/// the position of the first fatal failure, which aborts the batch's
/// success path however many other tasks completed.
pub fn summarize_batch(outcomes: &Vec<TaskOutcome>, elapsed_nanos: u128) -> (r: Result<
    RunResult,
    usize,
>)
    ensures
        match r {
            Ok(res) => {
                &&& forall|j: int| 0 <= j < outcomes@.len() ==> outcomes@[j] is Completed
                &&& res.tasks_spawned == outcomes@.len()
                &&& res.elapsed_nanos == elapsed_nanos
            },
            Err(i) => {
                &&& i < outcomes@.len()
                &&& outcomes@[i as int] is Failed
                &&& forall|j: int| 0 <= j < i ==> outcomes@[j] is Completed
            },
        },
{
    match first_failure(outcomes) {
        Some(i) => Err(i),
        None => Ok(RunResult { tasks_spawned: outcomes.len(), elapsed_nanos }),
    }
}

/// Fatal propagation: one failed task forbids the all-completed batch
/// result, so the batch reports a failure whatever the other tasks
/// did.
pub proof fn lemma_fatal_propagation(outcomes: Seq<TaskOutcome>, i: int)
    requires
        0 <= i < outcomes.len(),
        outcomes[i] is Failed,
    ensures
        !(forall|j: int| 0 <= j < outcomes.len() ==> outcomes[j] is Completed),
{
    assert(!(outcomes[i] is Completed));
}

} // verus!
