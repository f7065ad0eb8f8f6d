//! What holds of every registry, whatever was registered and whatever is
//! dispatched. Each law is stated over the views and relations that the
//! contracts of the registry use.

use crate::adapter::is_erasure_outcome;
use crate::error::SerdeDynError;
use crate::registry::is_dispatch_result;
use vstd::prelude::*;

verus! {

/// The entries of a registry that was created empty and then took the
/// registrations of `history`, first to last. Each registration is an
/// identifier and the adapter bound to it.
pub open spec fn registered<F>(history: Seq<(u128, F)>) -> Map<u128, F>
    decreases history.len(),
{
    if history.len() == 0 {
        Map::empty()
    } else {
        registered(history.drop_last()).insert(history.last().0, history.last().1)
    }
}

/// A registry knows an identifier exactly when some registration was made
/// under it.
pub proof fn lemma_known_iff_registered<F>(history: Seq<(u128, F)>, uuid: u128)
    ensures
        registered(history).contains_key(uuid) <==> exists|at: int|
            0 <= at < history.len() && (#[trigger] history[at]).0 == uuid,
    decreases history.len(),
{
    if history.len() > 0 {
        let earlier = history.drop_last();
        lemma_known_iff_registered(earlier, uuid);
        if registered(history).contains_key(uuid) {
            if history.last().0 == uuid {
                assert(history[history.len() - 1].0 == uuid);
            } else {
                let at = choose|at: int| 0 <= at < earlier.len() && (#[trigger] earlier[at]).0 == uuid;
                assert(history[at].0 == uuid);
            }
        }
        if exists|at: int| 0 <= at < history.len() && (#[trigger] history[at]).0 == uuid {
            let at = choose|at: int| 0 <= at < history.len() && (#[trigger] history[at]).0 == uuid;
            if at < history.len() - 1 {
                assert(earlier[at].0 == uuid);
            }
        }
    }
}

/// Last write wins: the adapter that a registry holds under an identifier is
/// the one of the latest registration under it, however many came before.
pub proof fn lemma_latest_registration_wins<F>(history: Seq<(u128, F)>, latest: int)
    requires
        0 <= latest < history.len(),
        forall|later: int|
            latest < later < history.len() ==> (#[trigger] history[later]).0 != history[latest].0,
    ensures
        registered(history).contains_key(history[latest].0),
        registered(history)[history[latest].0] == history[latest].1,
    decreases history.len(),
{
    if latest < history.len() - 1 {
        let earlier = history.drop_last();
        assert(history[history.len() - 1].0 != history[latest].0);
        assert forall|later: int| latest < later < earlier.len() implies (#[trigger] earlier[later]).0
            != earlier[latest].0 by {
            assert(history[later].0 != history[latest].0);
        }
        lemma_latest_registration_wins(earlier, latest);
    }
}

/// Unknown identifier: dispatch with an identifier under which nothing was
/// ever registered fails with `UuidNotFound`, whatever else was registered and
/// whatever the source holds.
pub proof fn lemma_unknown_identifier_fails<F, D, V, E>(
    history: Seq<(u128, F)>,
    uuid: u128,
    source: D,
    result: Result<V, SerdeDynError<E>>,
) where F: Fn(D) -> Result<V, E>
    requires
        forall|at: int| 0 <= at < history.len() ==> (#[trigger] history[at]).0 != uuid,
        is_dispatch_result(registered(history), uuid, source, result),
    ensures
        result == Err::<V, SerdeDynError<E>>(SerdeDynError::UuidNotFound),
{
    lemma_known_iff_registered(history, uuid);
}

/// Dispatch under a registered identifier returns what the adapter bound to it
/// returns on the source, and nothing else: never `UuidNotFound`.
pub proof fn lemma_dispatch_runs_registered_adapter<F, D, V, E>(
    entries: Map<u128, F>,
    uuid: u128,
    adapter: F,
    source: D,
    result: Result<V, SerdeDynError<E>>,
) where F: Fn(D) -> Result<V, E>
    ensures
        is_dispatch_result(entries.insert(uuid, adapter), uuid, source, result) <==> exists|
            outcome: Result<V, E>,
        |
            call_ensures(adapter, (source,), outcome) && result == SerdeDynError::lift(outcome),
        is_dispatch_result(entries.insert(uuid, adapter), uuid, source, result) ==> result
            != Err::<V, SerdeDynError<E>>(SerdeDynError::UuidNotFound),
{
}

/// A registration under one identifier leaves dispatch under every other
/// identifier as it was.
pub proof fn lemma_registration_keeps_other_entries<F, D, V, E>(
    entries: Map<u128, F>,
    other: u128,
    adapter: F,
    uuid: u128,
    source: D,
    result: Result<V, SerdeDynError<E>>,
) where F: Fn(D) -> Result<V, E>
    requires
        other != uuid,
    ensures
        is_dispatch_result(entries.insert(other, adapter), uuid, source, result)
            <==> is_dispatch_result(entries, uuid, source, result),
{
}

/// Re-registration: a second adapter registered under an identifier replaces
/// the first, as if the first had never been registered, and dispatch under
/// that identifier runs the second only.
pub proof fn lemma_reregistration_replaces<F, D, V, E>(
    entries: Map<u128, F>,
    uuid: u128,
    first: F,
    second: F,
    source: D,
    result: Result<V, SerdeDynError<E>>,
) where F: Fn(D) -> Result<V, E>
    ensures
        entries.insert(uuid, first).insert(uuid, second) == entries.insert(uuid, second),
        is_dispatch_result(entries.insert(uuid, first).insert(uuid, second), uuid, source, result)
            <==> exists|outcome: Result<V, E>|
            call_ensures(second, (source,), outcome) && result == SerdeDynError::lift(outcome),
{
    assert(entries.insert(uuid, first).insert(uuid, second) =~= entries.insert(uuid, second));
}

/// Round trip: where the erasure adapter of a type is registered under an
/// identifier, the source encodes `value`, and `recover` undoes `erase`,
/// dispatch under that identifier succeeds, and recovering from what it
/// returns yields `value`.
///
/// `decode`, `erase` and `recover` stand for the type's decode routine, the
/// conversion into the erased container and the checked downcast out of it.
pub proof fn lemma_round_trip<F, D, T, V, E, Dec, Era, Rec>(
    entries: Map<u128, F>,
    uuid: u128,
    adapter: F,
    decode: Dec,
    erase: Era,
    recover: Rec,
    source: D,
    value: T,
    result: Result<V, SerdeDynError<E>>,
) where
    F: Fn(D) -> Result<V, E>,
    Dec: FnOnce(D) -> Result<T, E>,
    Era: FnOnce(T) -> V,
    Rec: FnOnce(V) -> Option<T>,

    requires
        forall|outcome: Result<V, E>|
            call_ensures(adapter, (source,), outcome) ==> is_erasure_outcome(
                decode,
                erase,
                source,
                outcome,
            ),
        forall|decoded: Result<T, E>|
            call_ensures(decode, (source,), decoded) ==> decoded == Ok::<T, E>(value),
        forall|erased: V, recovered: Option<T>|
            call_ensures(erase, (value,), erased) && call_ensures(recover, (erased,), recovered)
                ==> recovered == Some(value),
        is_dispatch_result(entries.insert(uuid, adapter), uuid, source, result),
    ensures
        result matches Ok(erased) && call_ensures(erase, (value,), erased) && forall|
            recovered: Option<T>,
        |
            call_ensures(recover, (erased,), recovered) ==> recovered == Some(value),
{
    let outcome = choose|outcome: Result<V, E>|
        call_ensures(adapter, (source,), outcome) && result == SerdeDynError::lift(outcome);
    assert(is_erasure_outcome(decode, erase, source, outcome));
}

/// Decode failure passthrough: where the erasure adapter of a type is
/// registered under an identifier and the decode of the source fails with
/// `error`, dispatch under that identifier fails with `DeserializerError`
/// holding that same `error`.
pub proof fn lemma_decode_failure_passes_through<F, D, T, V, E, Dec, Era>(
    entries: Map<u128, F>,
    uuid: u128,
    decode: Dec,
    erase: Era,
    source: D,
    error: E,
    result: Result<V, SerdeDynError<E>>,
) where F: Fn(D) -> Result<V, E>, Dec: FnOnce(D) -> Result<T, E>, Era: FnOnce(T) -> V
    requires
        entries.contains_key(uuid),
        forall|outcome: Result<V, E>|
            call_ensures(entries[uuid], (source,), outcome) ==> is_erasure_outcome(
                decode,
                erase,
                source,
                outcome,
            ),
        forall|decoded: Result<T, E>|
            call_ensures(decode, (source,), decoded) ==> decoded == Err::<T, E>(error),
        is_dispatch_result(entries, uuid, source, result),
    ensures
        result == Err::<V, SerdeDynError<E>>(SerdeDynError::DeserializerError(error)),
{
    let outcome = choose|outcome: Result<V, E>|
        call_ensures(entries[uuid], (source,), outcome) && result == SerdeDynError::lift(outcome);
    assert(is_erasure_outcome(decode, erase, source, outcome));
}

} // verus!
