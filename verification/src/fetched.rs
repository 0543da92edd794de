//! What comes back from a round of fetches: all of the records, or the
//! error that ends the request. Nothing is reported of a round in part.

use crate::response::EndpointError;
use vstd::prelude::*;

verus! {

/// Whether every fetch of the round succeeded.
pub open spec fn all_fetched<T>(fetched: Seq<Result<T, EndpointError>>) -> bool {
    forall|i: int| 0 <= i < fetched.len() ==> (#[trigger] fetched[i]) is Ok
}

/// Whether the fetch at `index` failed and none before it did.
pub open spec fn is_first_failure<T>(fetched: Seq<Result<T, EndpointError>>, index: int) -> bool {
    &&& 0 <= index < fetched.len()
    &&& fetched[index] is Err
    &&& forall|j: int| 0 <= j < index ==> (#[trigger] fetched[j]) is Ok
}

/// The records of a round in which every fetch succeeded, in their order.
pub open spec fn records<T>(fetched: Seq<Result<T, EndpointError>>) -> Seq<T> {
    fetched.map_values(|outcome: Result<T, EndpointError>| outcome->Ok_0)
}

/// What a round comes to: its records where every fetch succeeded, and else
/// the error of the first fetch that failed.
pub open spec fn round_outcome<T>(fetched: Seq<Result<T, EndpointError>>) -> Result<Seq<T>, EndpointError> {
    if all_fetched(fetched) {
        Ok(records(fetched))
    } else {
        Err((fetched[choose|index: int| is_first_failure(fetched, index)])->Err_0)
    }
}

/// A round with a failed fetch has exactly one first failure.
pub proof fn lemma_first_failure<T>(fetched: Seq<Result<T, EndpointError>>, index: int)
    requires
        is_first_failure(fetched, index),
    ensures
        !all_fetched(fetched),
        round_outcome(fetched) == Err::<Seq<T>, EndpointError>(fetched[index]->Err_0),
{
    let chosen = choose|other: int| is_first_failure(fetched, other);
    if chosen < index {
        assert(fetched[chosen] is Ok);
    } else if index < chosen {
        assert(fetched[index] is Ok);
    }
}

/// Gathers the records of a round of fetches. One failed fetch fails the
/// round, with the error of the first fetch that failed.
pub fn gather<T>(fetched: Vec<Result<T, EndpointError>>) -> (gathered: Result<Vec<T>, EndpointError>)
    ensures
        match gathered {
            Ok(values) => round_outcome(fetched@) == Ok::<Seq<T>, EndpointError>(values@),
            Err(error) => round_outcome(fetched@) == Err::<Seq<T>, EndpointError>(error),
        },
{
    let ghost all = fetched@;
    let mut values: Vec<T> = Vec::new();
    for outcome in iter: fetched.into_iter()
        invariant
            iter.seq() == all,
            all_fetched(all.take(iter.index() as int)),
            values@ == records(all.take(iter.index() as int)),
    {
        let ghost index = iter.index() as int;
        match outcome {
            Ok(value) => {
                values.push(value);
                proof {
                    assert(all.take(index + 1) =~= all.take(index).push(all[index]));
                    assert(values@ =~= records(all.take(index + 1)));
                    assert forall|i: int| 0 <= i < index + 1 implies (#[trigger] all.take(index + 1)[i]) is Ok by {
                        if i < index {
                            assert(all.take(index)[i] is Ok);
                        }
                    }
                }
            },
            Err(error) => {
                proof {
                    assert forall|j: int| 0 <= j < index implies (#[trigger] all[j]) is Ok by {
                        assert(all.take(index)[j] is Ok);
                    }
                    lemma_first_failure(all, index);
                }
                return Err(error);
            },
        }
    }
    assert(all.take(all.len() as int) =~= all);
    Ok(values)
}

} // verus!
