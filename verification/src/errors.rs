//! Error taxonomy shared by every contract method.

use vstd::prelude::*;

verus! {

/// Discriminated error returned by the fallible contract methods.
///
/// No contract method panics or throws past its own boundary: every
/// failure is one of these variants, reported to the caller.
#[derive(Clone, Copy, Debug, PartialEq, Eq, Structural)]
pub enum UnitError {
    /// Compose rejected an incompatible input type; fatal to pipeline
    /// construction and never retried.
    BuildTimeType,
    /// Invalid parameter index or wrong parameter value shape.
    Parameter,
    /// A write was attempted on a constant-mode parameter binding.
    NotWritable,
    /// A required named variable or enclosing context is absent at
    /// activation; recoverable on a later tick.
    DependencyUnavailable,
    /// An object handle's vendor or type tag did not match the expected
    /// pair; never silently coerced.
    ResourceTypeMismatch,
    /// A blocking operation failed; the unit remains usable afterwards.
    IoFailure,
    /// A contract method was called outside its lifecycle window.
    Lifecycle,
}

} // verus!
