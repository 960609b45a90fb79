//! The rule by which a list of outcomes becomes one outcome: all of them
//! succeeded, or the one that failed first decides.

use vstd::prelude::*;

verus! {

/// Every outcome in `outcomes` is a success.
pub open spec fn all_ok<T, E>(outcomes: Seq<Result<T, E>>) -> bool {
    forall|i: int| 0 <= i < outcomes.len() ==> (#[trigger] outcomes[i]) is Ok
}

/// The outcome at `position` is a failure, and every one before it is a
/// success.
pub open spec fn first_err_at<T, E>(outcomes: Seq<Result<T, E>>, position: int) -> bool {
    &&& 0 <= position < outcomes.len()
    &&& outcomes[position] is Err
    &&& forall|i: int| 0 <= i < position ==> (#[trigger] outcomes[i]) is Ok
}

/// `error` is the failure that stands first in `outcomes`.
pub open spec fn first_err<T, E>(outcomes: Seq<Result<T, E>>, error: E) -> bool {
    exists|position: int| #[trigger]
        first_err_at(outcomes, position) && outcomes[position]->Err_0 == error
}

/// What a list of successes holds, in order.
pub open spec fn values<T, E>(outcomes: Seq<Result<T, E>>) -> Seq<T>
    recommends
        all_ok(outcomes),
{
    Seq::new(outcomes.len(), |i: int| outcomes[i]->Ok_0)
}

/// Gathers what a list of outcomes holds.
///
/// All succeeded: their values, in order. Else the failure that stands first
/// in the list, whatever came after it; the values of the successes are
/// dropped.
pub fn collect<T, E>(outcomes: Vec<Result<T, E>>) -> (gathered: Result<Vec<T>, E>)
    ensures
        gathered is Ok <==> all_ok(outcomes@),
        match gathered {
            Ok(items) => items@ == values(outcomes@),
            Err(error) => first_err(outcomes@, error),
        },
        forall|position: int| #[trigger]
            first_err_at(outcomes@, position) ==> (gathered matches Err(error) && error
                == outcomes@[position]->Err_0),
{
    let ghost all = outcomes@;
    let mut items: Vec<T> = Vec::new();
    for outcome in it: outcomes
        invariant
            it.seq() == all,
            items.len() == it.index(),
            forall|j: int| 0 <= j < it.index() ==> (#[trigger] all[j]) is Ok,
            forall|j: int| 0 <= j < it.index() ==> (#[trigger] items@[j]) == all[j]->Ok_0,
    {
        match outcome {
            Ok(item) => {
                items.push(item);
            },
            Err(error) => {
                assert(first_err_at(all, it.index()));
                return Err(error);
            },
        }
    }
    assert(items@ =~= values(all));
    Ok(items)
}

} // verus!
