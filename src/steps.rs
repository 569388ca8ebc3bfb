use vstd::prelude::*;
use crate::error::PipelineError;

verus! {

/// Where a fixed sequence of fallible steps stands: at the step with the
/// given index, done, or stopped by the first failure.
#[derive(Clone, Copy, Debug, PartialEq, Eq, Structural)]
pub enum Progress {
    At(usize),
    Finished,
    Failed(PipelineError),
}

/// The next position of a sequence of `n` steps once the current step has
/// succeeded (`failure` is `None`) or failed with the given error; a finished
/// or failed sequence stays where it is.
pub open spec fn advance_spec(p: Progress, failure: Option<PipelineError>, n: nat) -> Progress {
    match p {
        Progress::At(i) => {
            if i >= n {
                Progress::Finished
            } else if let Some(e) = failure {
                Progress::Failed(e)
            } else if i + 1 == n {
                Progress::Finished
            } else {
                Progress::At((i + 1) as usize)
            }
        },
        _ => p,
    }
}

/// The error a stopped sequence failed with.
pub open spec fn failure_of(p: Progress) -> Option<PipelineError> {
    match p {
        Progress::Failed(e) => Some(e),
        _ => None,
    }
}

pub open spec fn progress_index(p: Progress) -> usize {
    match p {
        Progress::At(i) => i,
        _ => 0,
    }
}

/// Where a sequence of `n` steps stands after the given step results, from
/// its first step.
pub open spec fn progress_after(results: Seq<Option<PipelineError>>, n: nat) -> Progress
    decreases results.len(),
{
    if results.len() == 0 {
        Progress::At(0)
    } else {
        advance_spec(progress_after(results.drop_last(), n), results.last(), n)
    }
}

/// Records the result of the current step.
pub fn advance(p: Progress, failure: Option<PipelineError>, n: usize) -> (r: Progress)
    ensures
        r == advance_spec(p, failure, n as nat),
{
    match p {
        Progress::At(i) => {
            if i >= n {
                Progress::Finished
            } else if let Some(e) = failure {
                Progress::Failed(e)
            } else if i + 1 == n {
                Progress::Finished
            } else {
                Progress::At(i + 1)
            }
        },
        _ => p,
    }
}

proof fn lemma_prefix_all_ok(results: Seq<Option<PipelineError>>, n: nat, i: int)
    requires
        0 <= i < n,
        i <= results.len(),
        n <= usize::MAX,
        forall|k: int| 0 <= k < i ==> results[k] is None,
    ensures
        progress_after(results.subrange(0, i), n) == Progress::At(i as usize),
    decreases i,
{
    if i > 0 {
        lemma_prefix_all_ok(results, n, i - 1);
        assert(results.subrange(0, i).drop_last() =~= results.subrange(0, i - 1));
    }
}

proof fn lemma_stopped_stays(results: Seq<Option<PipelineError>>, n: nat, j: int, m: int)
    requires
        0 <= j <= m <= results.len(),
        !(progress_after(results.subrange(0, j), n) is At),
    ensures
        progress_after(results.subrange(0, m), n) == progress_after(results.subrange(0, j), n),
    decreases m - j,
{
    if m > j {
        lemma_stopped_stays(results, n, j, m - 1);
        assert(results.subrange(0, m).drop_last() =~= results.subrange(0, m - 1));
    }
}

proof fn choose_first_failure(results: Seq<Option<PipelineError>>, j: int) -> (first: int)
    requires
        0 <= j < results.len(),
        results[j] is Some,
    ensures
        0 <= first <= j,
        results[first] is Some,
        forall|k: int| 0 <= k < first ==> results[k] is None,
    decreases j,
{
    if exists|i: int| 0 <= i < j && results[i] is Some {
        let i = choose|i: int| 0 <= i < j && results[i] is Some;
        choose_first_failure(results, i)
    } else {
        j
    }
}

/// With one result for each step: the sequence finishes exactly when every
/// step succeeds, and otherwise stops with the error of the first step that failed.
pub proof fn lemma_first_failure_decides(results: Seq<Option<PipelineError>>, n: nat)
    requires
        results.len() == n,
        0 < n <= usize::MAX,
    ensures
        (forall|k: int| 0 <= k < n ==> results[k] is None) ==> progress_after(results, n)
            == Progress::Finished,
        forall|j: int|
            0 <= j < n && results[j] is Some && (forall|k: int| 0 <= k < j ==> results[k] is None)
                ==> progress_after(results, n) == Progress::Failed(results[j]->Some_0),
        forall|j: int|
            0 <= j < n && results[j] is Some ==> (#[trigger] failure_of(progress_after(results, n)))
                is Some,
{
    let len = n as int;
    assert(results.subrange(0, len) =~= results);
    if forall|k: int| 0 <= k < len ==> results[k] is None {
        lemma_prefix_all_ok(results, n, len - 1);
        assert(results.subrange(0, len).drop_last() =~= results.subrange(0, len - 1));
    }
    assert forall|j: int|
        0 <= j < len && results[j] is Some && (forall|k: int| 0 <= k < j ==> results[k] is None)
            implies progress_after(results, n) == Progress::Failed(results[j]->Some_0) by {
        lemma_prefix_all_ok(results, n, j);
        assert(results.subrange(0, j + 1).drop_last() =~= results.subrange(0, j));
        lemma_stopped_stays(results, n, j + 1, len);
    }
    assert forall|j: int| 0 <= j < len && results[j] is Some implies (#[trigger] failure_of(
        progress_after(results, n),
    )) is Some by {
        let first = choose_first_failure(results, j);
        assert(results[first] is Some && forall|k: int| 0 <= k < first ==> results[k] is None);
    }
}

} // verus!
