//! Properties of runs of operations.
use vstd::prelude::*;

use crate::marketplace::Marketplace;

verus! {

/// `run` is a sequence of states, each reached from the one before by one
/// operation.
pub open spec fn is_run(run: Seq<Marketplace>) -> bool {
    forall|k: int| 0 <= k < run.len() - 1 ==> (#[trigger] run[k]).evolves_to(&run[k + 1])
}

/// A job that has reached a terminal status (completed or cancelled) is never
/// changed again: its worker, submission, status and payment stay as they
/// are in every later state of the run.
pub proof fn lemma_terminal_job_frozen(run: Seq<Marketplace>, id: u64)
    requires
        run.len() > 0,
        is_run(run),
        run[0].has_job(id),
        run[0].job_spec(id).status.is_terminal(),
    ensures
        forall|k: int|
            0 <= k < run.len() ==> (#[trigger] run[k]).has_job(id) && run[k].job_spec(id)
                == run[0].job_spec(id),
    decreases run.len(),
{
    if run.len() > 1 {
        let prefix = run.drop_last();
        assert(is_run(prefix)) by {
            assert forall|k: int| 0 <= k < prefix.len() - 1 implies (#[trigger] prefix[k]).evolves_to(
                &prefix[k + 1],
            ) by {
                assert(run[k].evolves_to(&run[k + 1]));
            }
        }
        lemma_terminal_job_frozen(prefix, id);
        let n = run.len() - 1;
        assert(prefix[n - 1] == run[n - 1]);
        assert(run[n - 1].evolves_to(&run[n]));
        assert forall|k: int| 0 <= k < run.len() implies (#[trigger] run[k]).has_job(id)
            && run[k].job_spec(id) == run[0].job_spec(id) by {
            if k < n {
                assert(prefix[k] == run[k]);
            } else {
                assert(run[n - 1].has_job(id));
                assert(run[n - 1].jobs@[id as int] == run[n - 1].job_spec(id));
            }
        }
    }
}

/// Each operation moves a job's status only along an edge of the lifecycle:
/// between consecutive states of a run every job keeps its status or takes
/// one of those edges, and a terminal status is never left.
pub proof fn lemma_status_follows_lifecycle(run: Seq<Marketplace>, k: int, id: u64)
    requires
        is_run(run),
        0 <= k < run.len() - 1,
        run[k].has_job(id),
    ensures
        run[k + 1].has_job(id),
        run[k + 1].job_spec(id).status == run[k].job_spec(id).status || crate::job::is_transition(
            run[k].job_spec(id).status,
            run[k + 1].job_spec(id).status,
        ),
        run[k].job_spec(id).status.is_terminal() ==> run[k + 1].job_spec(id).status
            == run[k].job_spec(id).status,
{
    assert(run[k].evolves_to(&run[k + 1]));
    assert(run[k].jobs@[id as int] == run[k].job_spec(id));
}

} // verus!
