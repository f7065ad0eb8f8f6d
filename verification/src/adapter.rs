//! The erasure adapter: decode a value of one type, then erase it into the
//! container that all adapters of a registry share.

use vstd::prelude::*;

verus! {

/// Whether `outcome` is an outcome, on `source`, of the erasure adapter made of
/// `decode` and `erase`.
///
/// Such an outcome comes from one outcome of `decode`: a decoded value gives
/// what `erase` makes of it, a decode error gives that same error.
pub open spec fn is_erasure_outcome<D, T, V, E, Dec, Era>(
    decode: Dec,
    erase: Era,
    source: D,
    outcome: Result<V, E>,
) -> bool where Dec: FnOnce(D) -> Result<T, E>, Era: FnOnce(T) -> V {
    exists|decoded: Result<T, E>|
        call_ensures(decode, (source,), decoded) && match decoded {
            Ok(value) => outcome matches Ok(erased) && call_ensures(erase, (value,), erased),
            Err(error) => outcome == Err::<V, E>(error),
        }
}

/// Runs the erasure adapter made of `decode` and `erase` on `source`: decodes
/// once, erases the value if there is one, and hands a decode error on as it
/// came.
///
/// `decode` is the decode routine of one type, `erase` the conversion into the
/// erased container. A function that takes only the source and calls this one
/// is an adapter for a registry.
pub fn decode_erased<D, T, V, E, Dec, Era>(decode: Dec, erase: Era, source: D) -> (outcome: Result<
    V,
    E,
>) where Dec: FnOnce(D) -> Result<T, E>, Era: FnOnce(T) -> V
    requires
        call_requires(decode, (source,)),
        forall|value: T|
            call_ensures(decode, (source,), Ok::<T, E>(value)) ==> call_requires(erase, (value,)),
    ensures
        is_erasure_outcome(decode, erase, source, outcome),
{
    match decode(source) {
        Ok(value) => Ok(erase(value)),
        Err(error) => Err(error),
    }
}

} // verus!
