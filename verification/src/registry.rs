//! The registry: one adapter per identifier, registration and dispatch.

use crate::error::SerdeDynError;
use crate::identifier::TypeUuid;
use fnv::FnvHashMap;
use vstd::prelude::*;

verus! {

/// `fnv::FnvHasher`, the hasher of the map that a registry keeps. Nothing is
/// said of it; it is named so that the map's type can be written.
#[verifier::external_type_specification]
#[verifier::external_body]
pub struct ExFnvHasher(fnv::FnvHasher);

/// `std::hash::BuildHasherDefault`, through which `fnv::FnvHashMap` makes its
/// hashers. Nothing is said of it.
#[verifier::external_type_specification]
#[verifier::external_body]
#[verifier::reject_recursive_types(H)]
pub struct ExBuildHasherDefault<H>(core::hash::BuildHasherDefault<H>);

/// `HashMap::insert` on an `FnvHashMap` keyed by `u128`. Claims that the map
/// afterwards holds `function` under `uuid`, in place of what it held there,
/// and everything else as before. This rests on `FnvHasher` starting from a
/// fixed state and hashing the bytes it is given and nothing else, so that
/// equal keys always hash alike. What `insert` returns is dropped.
#[verifier::external_body]
fn fnv_insert<F>(map: &mut FnvHashMap<u128, F>, uuid: u128, function: F)
    ensures
        final(map)@ == old(map)@.insert(uuid, function),
{
    map.insert(uuid, function);
}

/// `HashMap::get` on an `FnvHashMap` keyed by `u128`. Claims that it finds the
/// entry under `uuid` exactly when the map holds one, for the reason given at
/// `fnv_insert`.
#[verifier::external_body]
fn fnv_get<'a, F>(map: &'a FnvHashMap<u128, F>, uuid: &u128) -> (found: Option<&'a F>)
    ensures
        found == (if map@.contains_key(*uuid) {
            Some(&map@[*uuid])
        } else {
            None::<&F>
        }),
{
    map.get(uuid)
}

/// TUSM aka Type Uuid Serde Mapper: maps type identifiers to adapters.
///
/// An adapter is any function value of type `F` that takes a deserialization
/// source and returns the decoded value, erased, or the source's error. A
/// registry of function pointers holds adapters for as many types as needed.
/// The view of a registry is the map from identifier to adapter.
///
/// A registry is filled first and read afterwards. Dispatch takes `&self` and
/// changes nothing, so a filled registry can be shared among readers.
#[derive(Clone, Debug, PartialEq, Eq)]
pub struct TUSM<F> {
    mapping: FnvHashMap<u128, F>,
}

impl<F> View for TUSM<F> {
    type V = Map<u128, F>;

    closed spec fn view(&self) -> Map<u128, F> {
        self.mapping@
    }
}

/// Whether `result` is a result that dispatch may return for `uuid` and
/// `source` from a registry that holds `entries`.
///
/// For an identifier without an entry there is one such result,
/// `UuidNotFound`. For one with an entry they are the outcomes of its adapter
/// on `source`: a value as it is, an error inside `DeserializerError`.
pub open spec fn is_dispatch_result<F, D, V, E>(
    entries: Map<u128, F>,
    uuid: u128,
    source: D,
    result: Result<V, SerdeDynError<E>>,
) -> bool where F: Fn(D) -> Result<V, E> {
    if entries.contains_key(uuid) {
        exists|outcome: Result<V, E>|
            call_ensures(entries[uuid], (source,), outcome) && result == SerdeDynError::lift(
                outcome,
            )
    } else {
        result == Err::<V, SerdeDynError<E>>(SerdeDynError::UuidNotFound)
    }
}

impl<F> TUSM<F> {
    /// A registry without entries.
    pub fn new() -> (registry: Self)
        ensures
            registry@ == Map::<u128, F>::empty(),
    {
        TUSM { mapping: FnvHashMap::default() }
    }

    /// Binds `adapter` to the identifier that `T` declares. An adapter bound to
    /// that identifier before is replaced.
    ///
    /// `adapter` is meant to be the erasure adapter of `T`: the function that
    /// decodes a `T` from the source and erases it.
    pub fn register<T: TypeUuid>(&mut self, adapter: F)
        ensures
            final(self)@ == old(self)@.insert(T::UUID, adapter),
            final(self)@.contains_key(T::UUID),
            final(self)@[T::UUID] == adapter,
            forall|other: u128|
                other != T::UUID ==> (final(self)@.contains_key(other) <==> old(
                    self,
                )@.contains_key(other)) && final(self)@[other] == old(self)@[other],
    {
        self.manually_register(T::UUID, adapter);
    }

    /// Binds `function` to `uuid`. An adapter bound to `uuid` before is
    /// replaced.
    ///
    /// Prefer `register`, which takes the identifier from the type.
    ///
    /// The first clause says it all; the others spell out, entry by entry,
    /// what it means for a caller that looks one identifier up.
    pub fn manually_register(&mut self, uuid: u128, function: F)
        ensures
            final(self)@ == old(self)@.insert(uuid, function),
            final(self)@.contains_key(uuid),
            final(self)@[uuid] == function,
            forall|other: u128|
                other != uuid ==> (final(self)@.contains_key(other) <==> old(self)@.contains_key(
                    other,
                )) && final(self)@[other] == old(self)@[other],
    {
        fnv_insert(&mut self.mapping, uuid, function);
    }

    /// Decodes the next value of `deserializer` with the adapter bound to
    /// `uuid`.
    ///
    /// Fails with `UuidNotFound` if no adapter is bound to `uuid`. No adapter
    /// runs then, and the source is left as it was: what a mutable reference in
    /// `deserializer` refers to is not changed. Otherwise runs that adapter
    /// once and returns its value, or its error inside `DeserializerError`.
    ///
    /// The one demand is the adapter's own: that it can be called on
    /// `deserializer`.
    pub fn deserialize_with_uuid<D, V, E>(&self, uuid: &u128, deserializer: D) -> (result: Result<
        V,
        SerdeDynError<E>,
    >) where F: Fn(D) -> Result<V, E>
        requires
            self@.contains_key(*uuid) ==> call_requires(self@[*uuid], (deserializer,)),
        ensures
            is_dispatch_result(self@, *uuid, deserializer, result),
            !self@.contains_key(*uuid) ==> has_resolved(deserializer),
    {
        match fnv_get(&self.mapping, uuid) {
            Some(function) => SerdeDynError::from_decode(function(deserializer)),
            None => Err(SerdeDynError::UuidNotFound),
        }
    }
}

} // verus!
