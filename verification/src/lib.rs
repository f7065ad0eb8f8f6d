//! A runtime registry from type identifiers to decode routines.
//!
//! A reader that finds an identifier in its input, and does not know at compile
//! time which type follows, asks the registry: [`TUSM`] looks the identifier
//! up, runs the adapter bound to it on the deserialization source, and returns
//! the decoded value in erased form, or says why there is none.
//!
//! - [`identifier`]: the 128-bit identifier that a type declares
//!   ([`TypeUuid`]), and its conversion from the byte form of `type-uuid`.
//! - [`adapter`]: the erasure adapter, which decodes one type and erases the
//!   value ([`decode_erased`]).
//! - [`registry`]: registration and dispatch ([`TUSM`]).
//! - [`error`]: the two failures of a dispatch ([`SerdeDynError`]).
//! - [`laws`]: what holds of every registry, proved from the contracts.
//!
//! The source, the decoded value's erased form and the source's error are type
//! parameters: the registry never looks inside them. An adapter is a function
//! value, and its own contract is all that the registry's contracts speak of.
//! The call that decodes (`serde::Deserialize::deserialize`) and the erased
//! container (`Box<dyn Any>`) are chosen where the adapters are written.

pub mod adapter;
pub mod error;
pub mod identifier;
pub mod laws;
pub mod registry;

pub use adapter::decode_erased;
pub use error::SerdeDynError;
pub use identifier::{uuid_from_bytes, TypeUuid, TypeUuidDynamic};
pub use registry::TUSM;
