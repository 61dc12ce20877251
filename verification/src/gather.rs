//! Collecting the outcomes of items that are handled one by one, where the
//! first failure ends the work.

use vstd::prelude::*;

verus! {

/// The outcome of handling items in order: the values of all of them, or the
/// error of the first that failed.
pub open spec fn gather<V, E>(results: Seq<Result<V, E>>) -> Result<Seq<V>, E>
    decreases results.len(),
{
    if results.len() == 0 {
        Ok(Seq::empty())
    } else {
        match gather(results.drop_last()) {
            Err(e) => Err(e),
            Ok(found) => match results.last() {
                Err(e) => Err(e),
                Ok(v) => Ok(found.push(v)),
            },
        }
    }
}

/// What a function that returns a list or an error returns, as the
/// contracts speak of it: the list by the views of its members.
pub open spec fn outcome_view<T: DeepView, E>(r: Result<Vec<T>, E>) -> Result<Seq<T::V>, E> {
    match r {
        Ok(v) => Ok(v.deep_view()),
        Err(e) => Err(e),
    }
}

/// The outcome of the first `i + 1` items follows from that of the first
/// `i` and from item `i`.
pub proof fn lemma_gather_step<V, E>(results: Seq<Result<V, E>>, i: int)
    requires
        0 <= i < results.len(),
    ensures
        gather(results.take(i + 1)) == (match gather(results.take(i)) {
            Err(e) => Err(e),
            Ok(found) => match results[i] {
                Err(e) => Err(e),
                Ok(v) => Ok(found.push(v)),
            },
        }),
{
    assert(results.take(i + 1).drop_last() =~= results.take(i));
    assert(results.take(i + 1).last() == results[i]);
}

/// An error among the first items is the outcome of the whole.
pub proof fn lemma_gather_error<V, E>(results: Seq<Result<V, E>>, i: int, e: E)
    requires
        0 <= i <= results.len(),
        gather(results.take(i)) == Err::<Seq<V>, E>(e),
    ensures
        gather(results) == Err::<Seq<V>, E>(e),
    decreases results.len() - i,
{
    if i == results.len() {
        assert(results.take(i) =~= results);
    } else {
        lemma_gather_step(results, i);
        lemma_gather_error(results, i + 1, e);
    }
}

/// Where every item succeeds, so does the whole, with one value for each
/// item; where the whole succeeds, every item did, with the value that the
/// whole holds in its place.
pub proof fn lemma_gather_ok<V, E>(results: Seq<Result<V, E>>)
    ensures
        gather(results) matches Ok(found) ==> found.len() == results.len() && forall|i: int|
            0 <= i < results.len() ==> results[i] == Ok::<V, E>(#[trigger] found[i]),
        (forall|i: int| 0 <= i < results.len() ==> (#[trigger] results[i]) is Ok) ==> gather(
            results,
        ) is Ok,
    decreases results.len(),
{
    if results.len() > 0 {
        lemma_gather_ok(results.drop_last());
        if forall|i: int| 0 <= i < results.len() ==> (#[trigger] results[i]) is Ok {
            assert forall|i: int| 0 <= i < results.drop_last().len() implies (
            #[trigger] results.drop_last()[i]) is Ok by {
                assert(results.drop_last()[i] == results[i]);
            }
            assert(results.last() is Ok);
        }
        if gather(results) is Ok {
            let found = gather(results)->Ok_0;
            let before = gather(results.drop_last())->Ok_0;
            assert forall|i: int| 0 <= i < results.len() implies results[i] == Ok::<V, E>(
                #[trigger] found[i],
            ) by {
                if i < results.len() - 1 {
                    assert(results.drop_last()[i] == results[i]);
                    assert(found[i] == before[i]);
                }
            }
        }
    }
}

} // verus!
