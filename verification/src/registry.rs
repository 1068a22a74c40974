//! What a registry owes, whatever its backend.
//!
//! The five registries differ in the entries they pick and in the collector
//! they construct. What they return is stated once, here, over the entries
//! picked; and what follows from it is proved once.

use crate::builds::BuildProvider;
use crate::collectors::CollectorInfoView;
use crate::config::{reports, ProviderConfiguration, Validate};
use crate::error::{DuckError, DuckResult};
use vstd::prelude::*;

verus! {

/// `collectors` are the collectors of `entries`, for the backend `provider`:
/// there is one for each entry, in the order of the entries; validation
/// accepts the entry, and the collector is described as the entry says.
pub open spec fn constructed_from<S: Validate, C: View<V = CollectorInfoView>>(
    collectors: Seq<C>,
    entries: Seq<ProviderConfiguration<S>>,
    provider: BuildProvider,
) -> bool {
    &&& collectors.len() == entries.len()
    &&& forall|i: int|
        #![trigger entries[i]]
        #![trigger collectors[i]]
        0 <= i < entries.len() ==> entries[i].accepted() && collectors[i]@
            == entries[i].descriptor(provider)
}

/// Validation stopped at the `k`-th entry: it accepts every entry before it,
/// and `error` holds the problems that it reports for the `k`-th.
pub open spec fn stopped_at<S: Validate>(
    entries: Seq<ProviderConfiguration<S>>,
    k: int,
    error: DuckError,
) -> bool {
    &&& 0 <= k < entries.len()
    &&& forall|j: int| 0 <= j < k ==> (#[trigger] entries[j]).accepted()
    &&& error matches DuckError::Validation(problems) && reports(
        entries[k].settings,
        Err(problems),
    )
}

/// `result` is what the registry of `provider` owes for `entries`, the
/// entries of its backend: either the collectors of all of them; or, where
/// validation stopped at one of them, its problems as the error.
pub open spec fn registered<S: Validate, C: View<V = CollectorInfoView>>(
    entries: Seq<ProviderConfiguration<S>>,
    provider: BuildProvider,
    result: DuckResult<Vec<C>>,
) -> bool {
    match result {
        Ok(collectors) => constructed_from(collectors@, entries, provider),
        Err(error) => exists|k: int| stopped_at(entries, k, error),
    }
}

/// What was picked from the first `i` entries stays in front when the rest
/// is read.
pub(crate) proof fn lemma_picked_stays_in_front<E, P>(
    entries: Seq<E>,
    pick: spec_fn(E) -> Option<P>,
    i: int,
)
    requires
        0 <= i <= entries.len(),
    ensures
        entries.take(i).filter_map(pick).is_prefix_of(entries.filter_map(pick)),
    decreases entries.len() - i,
{
    if i == entries.len() {
        assert(entries.take(i) =~= entries);
    } else {
        entries.lemma_filter_map_take_succ(pick, i);
        lemma_picked_stays_in_front(entries, pick, i + 1);
    }
}

/// Where validation stopped in the entries read so far, it stopped in all of
/// them.
pub(crate) proof fn lemma_stopped_in_front<S: Validate>(
    front: Seq<ProviderConfiguration<S>>,
    entries: Seq<ProviderConfiguration<S>>,
    k: int,
    error: DuckError,
)
    requires
        front.is_prefix_of(entries),
        stopped_at(front, k, error),
    ensures
        stopped_at(entries, k, error),
{
    assert forall|j: int| 0 <= j < front.len() implies front[j] == entries[j] by {
        assert(front[j] == entries.subrange(0, front.len() as int)[j]);
    }
}

/// `places` tells where in `entries` each of `picked` was found: each at its
/// own place, in rising order, and no entry that `pick` takes is left out.
pub open spec fn picked_at<E, P>(
    entries: Seq<E>,
    pick: spec_fn(E) -> Option<P>,
    picked: Seq<P>,
    places: Seq<int>,
) -> bool {
    &&& places.len() == picked.len()
    &&& forall|i: int|
        0 <= i < places.len() ==> 0 <= #[trigger] places[i] < entries.len() && pick(
            entries[places[i]],
        ) == Some(picked[i])
    &&& forall|i: int, j: int|
        0 <= i < j < places.len() ==> #[trigger] places[i] < #[trigger] places[j]
    &&& forall|place: int|
        0 <= place < entries.len() && (#[trigger] pick(entries[place])) is Some
            ==> places.contains(place)
}

/// A registry picks the entries of its own backend and no others, each once,
/// and keeps them in the order of the configuration: the entries picked can
/// be traced back, one by one and in rising order, to all the places of the
/// configuration that hold an entry of that backend.
///
/// Here `entries` are the entries of the configuration and `pick` is the
/// choice of one backend, as in `Configuration::teamcity_entries` and its
/// siblings.
pub proof fn law_picked_in_order<E, P>(entries: Seq<E>, pick: spec_fn(E) -> Option<P>) -> (places:
    Seq<int>)
    ensures
        picked_at(entries, pick, entries.filter_map(pick), places),
    decreases entries.len(),
{
    if entries.len() == 0 {
        Seq::empty()
    } else {
        let front = entries.drop_last();
        let last = entries.len() - 1;
        let before = law_picked_in_order(front, pick);
        let places = if pick(entries.last()) is Some {
            before.push(last)
        } else {
            before
        };
        let picked = entries.filter_map(pick);
        assert forall|i: int| 0 <= i < places.len() implies 0 <= #[trigger] places[i]
            < entries.len() && pick(entries[places[i]]) == Some(picked[i]) by {
            if i < before.len() {
                assert(entries[before[i]] == front[before[i]]);
            }
        }
        assert forall|place: int|
            0 <= place < entries.len() && (#[trigger] pick(
                entries[place],
            )) is Some implies places.contains(place) by {
            if place < last {
                assert(entries[place] == front[place]);
                assert(before.contains(place));
                let i = choose|i: int| 0 <= i < before.len() && before[i] == place;
                assert(places[i] == place);
            } else {
                assert(places[places.len() - 1] == place);
            }
        }
        places
    }
}

/// Where the configuration holds no entry of a backend, nothing is picked for
/// its registry. `entries` and `pick` are as in [`law_picked_in_order`].
pub proof fn law_nothing_to_pick<E, P>(entries: Seq<E>, pick: spec_fn(E) -> Option<P>)
    requires
        forall|place: int|
            0 <= place < entries.len() ==> (#[trigger] pick(entries[place])) is None,
    ensures
        entries.filter_map(pick).len() == 0,
{
    let places = law_picked_in_order(entries, pick);
    if places.len() > 0 {
        assert(pick(entries[places[0]]) is Some);
    }
}

/// Every collector that a registry returns is described as one of the
/// registry's own backend. Here and below `entries` are the entries picked
/// for the registry of `provider`, and `result` is what it returned.
pub proof fn law_collectors_of_own_backend<S: Validate, C: View<V = CollectorInfoView>>(
    entries: Seq<ProviderConfiguration<S>>,
    provider: BuildProvider,
    result: DuckResult<Vec<C>>,
)
    requires
        registered(entries, provider, result),
    ensures
        result matches Ok(collectors) ==> forall|i: int|
            0 <= i < collectors@.len() ==> (#[trigger] collectors@[i])@.provider == provider,
{
}

/// Where every entry of a backend is valid, its registry succeeds, and
/// returns as many collectors as there are entries: the `i`-th collector is
/// that of the `i`-th entry.
pub proof fn law_valid_entries_give_collectors<S: Validate, C: View<V = CollectorInfoView>>(
    entries: Seq<ProviderConfiguration<S>>,
    provider: BuildProvider,
    result: DuckResult<Vec<C>>,
)
    requires
        registered(entries, provider, result),
        forall|i: int| 0 <= i < entries.len() ==> (#[trigger] entries[i]).is_valid(),
    ensures
        result matches Ok(collectors) && collectors@.len() == entries.len() && forall|i: int|
            0 <= i < entries.len() ==> (#[trigger] collectors@[i])@ == entries[i].descriptor(
                provider,
            ),
{
    if let Err(error) = result {
        let k = choose|k: int| stopped_at(entries, k, error);
        assert(entries[k].is_valid());
    }
}

/// Where one entry of a backend is invalid, its registry fails with a
/// validation error and returns no collector at all, however many valid
/// entries stand beside the invalid one.
pub proof fn law_invalid_entry_fails_all<S: Validate, C: View<V = CollectorInfoView>>(
    entries: Seq<ProviderConfiguration<S>>,
    provider: BuildProvider,
    result: DuckResult<Vec<C>>,
    i: int,
)
    requires
        registered(entries, provider, result),
        0 <= i < entries.len(),
        entries[i].is_invalid(),
    ensures
        result matches Err(error) && error is Validation,
{
    if result is Ok {
        assert(entries[i].accepted());
    }
}

/// Where each entry of a backend is either valid or invalid, its registry
/// fails with the problems of the first invalid one.
pub proof fn law_first_invalid_entry_is_reported<S: Validate, C: View<V = CollectorInfoView>>(
    entries: Seq<ProviderConfiguration<S>>,
    provider: BuildProvider,
    result: DuckResult<Vec<C>>,
    first: int,
)
    requires
        registered(entries, provider, result),
        forall|i: int|
            0 <= i < entries.len() ==> (#[trigger] entries[i]).is_valid()
                || entries[i].is_invalid(),
        0 <= first < entries.len(),
        entries[first].is_invalid(),
        forall|i: int| 0 <= i < first ==> (#[trigger] entries[i]).is_valid(),
    ensures
        result matches Err(DuckError::Validation(problems)) && reports(
            entries[first].settings,
            Err(problems),
        ),
{
    law_invalid_entry_fails_all(entries, provider, result, first);
    let error = result->Err_0;
    let k = choose|k: int| stopped_at(entries, k, error);
    if k < first {
        assert(entries[k].is_valid());
    } else if first < k {
        assert(entries[first].accepted());
    }
}

/// A registry does not look at `enabled`: a valid entry that is switched off
/// gets its collector like any other, and the collector is described as
/// switched off.
pub proof fn law_disabled_entries_get_collectors<S: Validate, C: View<V = CollectorInfoView>>(
    entries: Seq<ProviderConfiguration<S>>,
    provider: BuildProvider,
    result: DuckResult<Vec<C>>,
    i: int,
)
    requires
        registered(entries, provider, result),
        forall|j: int| 0 <= j < entries.len() ==> (#[trigger] entries[j]).is_valid(),
        0 <= i < entries.len(),
        !entries[i].enabled,
    ensures
        result matches Ok(collectors) && i < collectors@.len() && collectors@[i]@.id
            == entries[i].id@ && !collectors@[i]@.enabled,
{
    law_valid_entries_give_collectors(entries, provider, result);
}

/// With no entry of its backend in the configuration a registry succeeds,
/// and returns no collector.
pub proof fn law_no_entries_no_collectors<S: Validate, C: View<V = CollectorInfoView>>(
    entries: Seq<ProviderConfiguration<S>>,
    provider: BuildProvider,
    result: DuckResult<Vec<C>>,
)
    requires
        registered(entries, provider, result),
        entries.len() == 0,
    ensures
        result matches Ok(collectors) && collectors@.len() == 0,
{
    law_valid_entries_give_collectors(entries, provider, result);
}

} // verus!
