//! Error translation for a cryptographic binding layer.
//!
//! Failures from three domains — ASN.1 parsing/serialization, the OpenSSL
//! backend, and the Python host runtime — are absorbed into one tagged union,
//! [`error::CryptographyError`], optionally enriched with location context
//! while unwinding through nested parsers, and finally materialized exactly
//! once into a host exception description, [`host::PyException`].

use vstd::prelude::*;

pub mod parse;
pub mod backend;
pub mod host;
pub mod message;
pub mod error;

verus! {

/// Alias binding the error union as the failure type of fallible operations.
pub type CryptographyResult<T> = Result<T, error::CryptographyError>;

} // verus!
