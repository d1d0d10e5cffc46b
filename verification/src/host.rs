//! Descriptions of host-runtime exceptions.
//!
//! The library never touches the Python runtime itself: it produces a plain
//! description of the exception to raise — which class, which message, which
//! payload — and the unverified boundary around the library resolves the
//! actual host classes and constructs the host objects from it.

use vstd::prelude::*;
use crate::backend::OpenSSLError;

verus! {

/// A host exception, described as plain data. `InternalError` additionally
/// carries the ordered backend diagnostic records so that root-cause chains
/// are not lost.
#[derive(Debug, Clone, PartialEq, Eq)]
pub enum PyException {
    /// Value-error-equivalent: malformed input.
    ValueError(String),
    /// Type-error-equivalent: a host object of an unexpected type.
    TypeError(String),
    /// Memory-error-equivalent: allocation exhaustion.
    MemoryError(String),
    /// The host's custom internal-error class, with the backend records.
    InternalError(String, Vec<OpenSSLError>),
}

} // verus!
