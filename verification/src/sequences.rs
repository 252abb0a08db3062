//! Gathering the results of converting a list item by item.

use vstd::prelude::*;

verus! {

/// All the values of `results` in order, or the first error among them.
pub open spec fn collect<B, E>(results: Seq<Result<B, E>>) -> Result<Seq<B>, E>
    decreases results.len(),
{
    if results.len() == 0 {
        Ok(Seq::empty())
    } else {
        match collect(results.drop_last()) {
            Err(error) => Err(error),
            Ok(values) => match results.last() {
                Err(error) => Err(error),
                Ok(value) => Ok(values.push(value)),
            },
        }
    }
}

/// The values of `results` that stand before its first error (all of them
/// where it holds no error).
pub open spec fn values_before_error<B, E>(results: Seq<Result<B, E>>) -> Seq<B>
    decreases results.len(),
{
    if results.len() == 0 {
        Seq::empty()
    } else {
        match collect(results.drop_last()) {
            Err(_) => values_before_error(results.drop_last()),
            Ok(values) => match results.last() {
                Err(_) => values,
                Ok(value) => values.push(value),
            },
        }
    }
}

/// Where the first `k` items are values and the next one is an error, the
/// values before the first error are those `k`.
pub proof fn lemma_values_before_error<B, E>(results: Seq<Result<B, E>>, k: int)
    requires
        0 <= k < results.len(),
        collect(results.take(k)) is Ok,
        results[k] is Err,
    ensures
        values_before_error(results) == collect(results.take(k))->Ok_0,
    decreases results.len(),
{
    let front = results.drop_last();
    if k == results.len() - 1 {
        assert(front =~= results.take(k));
    } else {
        assert(front.take(k) =~= results.take(k));
        assert(front[k] == results[k]);
        lemma_values_before_error(front, k);
        lemma_collect_push(front, k);
        lemma_collect_error_stays(front, k + 1);
    }
}

/// The value of the first entry of `entries` that stands under `key`.
pub open spec fn value_under<K, V>(entries: Seq<(K, V)>, key: K) -> Option<V>
    decreases entries.len(),
{
    if entries.len() == 0 {
        None
    } else if entries[0].0 == key {
        Some(entries[0].1)
    } else {
        value_under(entries.drop_first(), key)
    }
}

/// The views of the items of a list.
pub open spec fn views<T: View>(items: Seq<T>) -> Seq<T::V> {
    items.map_values(|item: T| item@)
}

/// Whether an executable result says what `model` says: the same value, seen
/// through its view, or the same message.
pub open spec fn renders<T: View>(r: Result<T, String>, model: Result<T::V, Seq<char>>) -> bool {
    match model {
        Ok(value) => r matches Ok(given) && given@ == value,
        Err(message) => r matches Err(given) && given@ == message,
    }
}

/// Whether an executable list result says what `model` says: the same
/// values, each seen through its view, or the same message.
pub open spec fn renders_all<T: View>(
    r: Result<Vec<T>, String>,
    model: Result<Seq<T::V>, Seq<char>>,
) -> bool {
    match model {
        Ok(values) => r matches Ok(given) && views(given@) == values,
        Err(message) => r matches Err(given) && given@ == message,
    }
}

/// Gathering succeeds exactly when every item is a value, and then gives
/// each item's value at the item's place.
pub proof fn lemma_collect_values<B, E>(results: Seq<Result<B, E>>)
    ensures
        collect(results) is Ok <==> forall|i: int|
            0 <= i < results.len() ==> (#[trigger] results[i]) is Ok,
        collect(results) matches Ok(values) ==> values.len() == results.len() && forall|i: int|
            0 <= i < results.len() ==> results[i] == Ok::<B, E>(#[trigger] values[i]),
    decreases results.len(),
{
    if results.len() > 0 {
        let front = results.drop_last();
        lemma_collect_values(front);
        if collect(results) is Ok {
            assert forall|i: int| 0 <= i < results.len() implies (#[trigger] results[i]) is Ok by {
                if i < front.len() {
                    assert(front[i] == results[i]);
                }
            }
        } else if collect(front) is Err {
            let i = choose|i: int| 0 <= i < front.len() && !((#[trigger] front[i]) is Ok);
            assert(results[i] == front[i]);
        }
        if let Ok(values) = collect(results) {
            assert forall|i: int| 0 <= i < results.len() implies results[i] == Ok::<B, E>(
                #[trigger] values[i],
            ) by {
                if i < front.len() {
                    assert(front[i] == results[i]);
                }
            }
        }
    }
}

/// Gathering fails with the error of the first item that is an error.
pub proof fn lemma_collect_first_error<B, E>(results: Seq<Result<B, E>>, at: int)
    requires
        0 <= at < results.len(),
        results[at] is Err,
        forall|i: int| 0 <= i < at ==> (#[trigger] results[i]) is Ok,
    ensures
        collect(results) == Err::<Seq<B>, E>(results[at]->Err_0),
    decreases results.len(),
{
    let front = results.drop_last();
    if at == results.len() - 1 {
        lemma_collect_values(front);
        assert forall|i: int| 0 <= i < front.len() implies (#[trigger] front[i]) is Ok by {
            assert(front[i] == results[i]);
        }
    } else {
        assert(front[at] == results[at]);
        assert forall|i: int| 0 <= i < at implies (#[trigger] front[i]) is Ok by {
            assert(front[i] == results[i]);
        }
        lemma_collect_first_error(front, at);
    }
}

/// Gathering one more value: the values so far and the new one.
pub proof fn lemma_collect_push<B, E>(results: Seq<Result<B, E>>, k: int)
    requires
        0 <= k < results.len(),
    ensures
        collect(results.take(k + 1)) == match collect(results.take(k)) {
            Err(error) => Err::<Seq<B>, E>(error),
            Ok(values) => match results[k] {
                Err(error) => Err(error),
                Ok(value) => Ok(values.push(value)),
            },
        },
{
    assert(results.take(k + 1).drop_last() =~= results.take(k));
    assert(results.take(k + 1).last() == results[k]);
}

/// An error among the first `k` items is the error of the whole list.
pub proof fn lemma_collect_error_stays<B, E>(results: Seq<Result<B, E>>, k: int)
    requires
        0 <= k <= results.len(),
        collect(results.take(k)) is Err,
    ensures
        collect(results) == collect(results.take(k)),
    decreases results.len() - k,
{
    if k < results.len() {
        lemma_collect_push(results, k);
        lemma_collect_error_stays(results, k + 1);
    } else {
        assert(results.take(k) =~= results);
    }
}

} // verus!
