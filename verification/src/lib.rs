//! A compile-time transformer that turns ordinary function and method
//! signatures into ABI-safe entry points for a sandboxed contract runtime.
//!
//! The core works on a small intermediate representation of a signature
//! ([`ir`]): a validator rejects parameter shapes that cannot cross the ABI
//! boundary ([`validate`]), a synthesizer derives a wrapper definition that
//! marshals raw values and delegates to the original function ([`wrap`]), and
//! a descriptor builder renders the parameter-type list into a named static
//! byte record for outside tooling ([`descriptor`]). The selection of which
//! declared items are transformed, and the whole per-function pipeline, live
//! in [`expand`]. The meaning of a synthesized wrapper body, and the laws it
//! obeys, are stated in [`semantics`].

pub mod descriptor;
pub mod expand;
pub mod ir;
pub mod semantics;
pub mod validate;
pub mod wrap;
