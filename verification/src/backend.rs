//! Diagnostics drained from the OpenSSL backend, as plain records.
//!
//! The backend keeps a per-context stack of pending diagnostics; one logical
//! failure often pushes several layers (an I/O failure wrapped by a protocol
//! failure). Draining captures every entry, in the order the stack yields
//! them, as (code, reason) records; the captured sequence is never mutated
//! afterwards.

use vstd::prelude::*;
use vstd::string::StringExecFns;

verus! {

#[verifier::external_type_specification]
#[verifier::external_body]
pub struct ExOpenSSLErrorStack(openssl::error::ErrorStack);

/// The error codes held by a native backend stack, in stack order.
pub uninterp spec fn stack_codes(s: openssl::error::ErrorStack) -> Seq<u64>;

/// Relies on `openssl::error::ErrorStack::errors`, `Error::code` and
/// `Error::reason`: hands out one (code, reason) pair per error held by the
/// stack, in stack order. The codes are stored in the stack itself; the
/// reason text is looked up in the loaded OpenSSL's string tables and may be
/// absent, so nothing is promised of it.
#[verifier::external_body]
fn stack_entries(s: &openssl::error::ErrorStack) -> (r: Vec<(u64, Option<String>)>)
    ensures
        r@.len() == stack_codes(*s).len(),
        forall|i: int| 0 <= i < r@.len() ==> (#[trigger] r@[i]).0 == stack_codes(*s)[i],
{
    s.errors().iter().map(|e| (e.code() as u64, e.reason().map(|t| t.to_string()))).collect()
}

/// One diagnostic record reported by the backend: a numeric error code and
/// the backend-supplied reason text (empty when the backend offers none).
#[derive(Debug, Clone, PartialEq, Eq)]
pub struct OpenSSLError {
    pub code: u64,
    pub reason: String,
}

/// Captures a native backend stack as plain records: one record per entry,
/// in stack order, each carrying the entry's code; a record's reason is the
/// backend-supplied text, or empty where the backend offers none. A stack
/// without pending diagnostics yields an empty (non-null) sequence.
pub fn capture_openssl(s: &openssl::error::ErrorStack) -> (r: Vec<OpenSSLError>)
    ensures
        r@.len() == stack_codes(*s).len(),
        forall|i: int| 0 <= i < r@.len() ==> (#[trigger] r@[i]).code == stack_codes(*s)[i],
{
    let entries = stack_entries(s);
    let mut errors: Vec<OpenSSLError> = Vec::new();
    let mut i: usize = 0;
    while i < entries.len()
        invariant
            i <= entries@.len(),
            entries@.len() == stack_codes(*s).len(),
            forall|j: int|
                0 <= j < entries@.len() ==> (#[trigger] entries@[j]).0 == stack_codes(*s)[j],
            errors@.len() == i,
            forall|j: int| 0 <= j < i ==> (#[trigger] errors@[j]).code == stack_codes(*s)[j],
        decreases entries@.len() - i,
    {
        let code: u64 = entries[i].0;
        let reason: String = match &entries[i].1 {
            Some(t) => String::from_str(t.as_str()),
            None => String::new(),
        };
        errors.push(OpenSSLError { code, reason });
        i = i + 1;
    }
    errors
}

} // verus!
