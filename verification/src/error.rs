//! The error union, its absorptions, enrichment, and materialization.

use vstd::prelude::*;
use crate::backend::{capture_openssl, stack_codes, OpenSSLError};
use crate::host::PyException;
use crate::message;
use crate::parse::{ParseError, ParseLocation, WriteError};

verus! {

/// The union of every failure the binding layer can see. Exactly one variant
/// is live; conversion from a domain error always lands in that domain's
/// variant.
#[derive(Debug, Clone, PartialEq, Eq)]
pub enum CryptographyError {
    /// A structured-parsing failure, enriched with location context while
    /// unwinding.
    Asn1Parse(ParseError),
    /// A structured-encoding failure.
    Asn1Write(WriteError),
    /// A host-runtime exception, passed through unchanged.
    Py(PyException),
    /// The ordered diagnostics drained from the backend's failure state.
    OpenSSL(Vec<OpenSSLError>),
}

impl core::convert::From<ParseError> for CryptographyError {
    fn from(e: ParseError) -> (r: CryptographyError)
        ensures
            r == CryptographyError::Asn1Parse(e),
    {
        CryptographyError::Asn1Parse(e)
    }
}

impl vstd::std_specs::convert::FromSpecImpl<ParseError> for CryptographyError {
    open spec fn obeys_from_spec() -> bool {
        true
    }

    open spec fn from_spec(e: ParseError) -> CryptographyError {
        CryptographyError::Asn1Parse(e)
    }
}

impl core::convert::From<WriteError> for CryptographyError {
    fn from(e: WriteError) -> (r: CryptographyError)
        ensures
            r == CryptographyError::Asn1Write(e),
    {
        CryptographyError::Asn1Write(e)
    }
}

impl vstd::std_specs::convert::FromSpecImpl<WriteError> for CryptographyError {
    open spec fn obeys_from_spec() -> bool {
        true
    }

    open spec fn from_spec(e: WriteError) -> CryptographyError {
        CryptographyError::Asn1Write(e)
    }
}

impl core::convert::From<PyException> for CryptographyError {
    fn from(e: PyException) -> (r: CryptographyError)
        ensures
            r == CryptographyError::Py(e),
    {
        CryptographyError::Py(e)
    }
}

impl vstd::std_specs::convert::FromSpecImpl<PyException> for CryptographyError {
    open spec fn obeys_from_spec() -> bool {
        true
    }

    open spec fn from_spec(e: PyException) -> CryptographyError {
        CryptographyError::Py(e)
    }
}

impl core::convert::From<Vec<OpenSSLError>> for CryptographyError {
    fn from(e: Vec<OpenSSLError>) -> (r: CryptographyError)
        ensures
            r == CryptographyError::OpenSSL(e),
    {
        CryptographyError::OpenSSL(e)
    }
}

impl vstd::std_specs::convert::FromSpecImpl<Vec<OpenSSLError>> for CryptographyError {
    open spec fn obeys_from_spec() -> bool {
        true
    }

    open spec fn from_spec(e: Vec<OpenSSLError>) -> CryptographyError {
        CryptographyError::OpenSSL(e)
    }
}

#[verifier::external_type_specification]
#[verifier::external_body]
pub struct ExPemError(pem::PemError);

/// Relies on `pem::PemError`'s derived `Debug` rendering for the detail text
/// of an envelope-loading failure. Nothing is promised of the text.
#[verifier::external_body]
fn pem_error_detail(e: &pem::PemError) -> (r: String) {
    format!("{:?}", e)
}

/// How enrichment relates its result `r` to its input `e`: a parsing failure
/// gets `loc` appended to its location path and keeps everything else; every
/// other variant comes back unchanged.
pub open spec fn add_location_rel(
    e: CryptographyError,
    loc: ParseLocation,
    r: CryptographyError,
) -> bool {
    match e {
        CryptographyError::Asn1Parse(p) => (r matches CryptographyError::Asn1Parse(q)
            && q.description == p.description && q.locations@ == p.locations@.push(loc)),
        _ => r == e,
    }
}

/// How materialization relates the host exception `r` to the consumed union
/// value `e`: the exact class and message for each variant, with backend
/// records and host exceptions carried through unchanged.
pub open spec fn materialize_rel(e: CryptographyError, r: PyException) -> bool {
    match e {
        CryptographyError::Asn1Parse(p) => (r matches PyException::ValueError(m) && m@
            == message::parse_failure_message(p)),
        CryptographyError::Asn1Write(_) => (r matches PyException::MemoryError(m) && m@
            == message::alloc_failure_message()),
        CryptographyError::Py(x) => r == x,
        CryptographyError::OpenSSL(s) => (r matches PyException::InternalError(m, rs) && m@
            == message::openssl_failure_message() && rs == s),
    }
}

impl CryptographyError {
    /// Annotates a parsing failure with one more location marker as it
    /// propagates; on any other variant this is the identity. Never changes
    /// the variant tag and never panics.
    pub fn add_location(self, loc: ParseLocation) -> (r: Self)
        ensures
            add_location_rel(self, loc, r),
    {
        match self {
            CryptographyError::Asn1Parse(e) => CryptographyError::Asn1Parse(e.add_location(loc)),
            CryptographyError::Asn1Write(e) => CryptographyError::Asn1Write(e),
            CryptographyError::Py(e) => CryptographyError::Py(e),
            CryptographyError::OpenSSL(e) => CryptographyError::OpenSSL(e),
        }
    }

    /// Absorbs an envelope-loading failure: the loading domain has no
    /// variant of its own, so it lands in the host-runtime variant as a
    /// value-error description built around `detail` by
    /// [`message::pem_failure_message`].
    pub fn pem_load_error(detail: String) -> (r: CryptographyError)
        ensures
            (r matches CryptographyError::Py(x) && x matches PyException::ValueError(m) && m@
                == message::pem_failure_message(detail@)),
    {
        CryptographyError::Py(PyException::ValueError(message::pem_failure_text(&detail)))
    }

    /// Absorbs a native envelope-loading failure. The resulting message
    /// always cites the remediation document.
    pub fn from_pem_error(e: &pem::PemError) -> (r: CryptographyError)
        ensures
            (r matches CryptographyError::Py(x) && x matches PyException::ValueError(m)
                && message::contains_seq(m@, message::pem_doc_url())),
    {
        let detail = pem_error_detail(e);
        proof {
            message::lemma_pem_message_cites_docs(detail@);
        }
        Self::pem_load_error(detail)
    }

    /// Absorbs a native backend stack: captures its diagnostics via
    /// [`capture_openssl`] and wraps them, preserving count and code order.
    pub fn from_openssl_stack(s: &openssl::error::ErrorStack) -> (r: CryptographyError)
        ensures
            (r matches CryptographyError::OpenSSL(es) && es@.len() == stack_codes(*s).len() && (
            forall|i: int|
                0 <= i < es@.len() ==> (#[trigger] es@[i]).code == stack_codes(*s)[i])),
    {
        CryptographyError::OpenSSL(capture_openssl(s))
    }

    /// Consumes the union value and produces the host exception to raise:
    /// the single boundary-crossing translation. Total: every variant maps
    /// to exactly one exception description.
    pub fn materialize(self) -> (r: PyException)
        ensures
            materialize_rel(self, r),
    {
        match self {
            CryptographyError::Asn1Parse(e) => PyException::ValueError(
                message::render_parse_failure(&e),
            ),
            CryptographyError::Asn1Write(WriteError::AllocationError) => PyException::MemoryError(
                message::alloc_failure_text(),
            ),
            CryptographyError::Py(e) => e,
            CryptographyError::OpenSSL(s) => PyException::InternalError(
                message::openssl_failure_text(),
                s,
            ),
        }
    }
}

/// Law: enriching a parsing failure twice appends both locations, in order,
/// after the existing path; nothing is dropped or reordered.
pub proof fn lemma_add_location_appends(
    e: CryptographyError,
    l1: ParseLocation,
    l2: ParseLocation,
    r1: CryptographyError,
    r2: CryptographyError,
)
    requires
        add_location_rel(e, l1, r1),
        add_location_rel(r1, l2, r2),
    ensures
        e matches CryptographyError::Asn1Parse(p) ==> (r2 matches CryptographyError::Asn1Parse(q)
            && q.description == p.description && q.locations@ == p.locations@.push(l1).push(l2)),
{
}

/// Law: enrichment is the identity on every non-parsing variant; the value
/// comes back equal, payload and tag alike.
pub proof fn lemma_add_location_identity(
    e: CryptographyError,
    loc: ParseLocation,
    r: CryptographyError,
)
    requires
        !(e matches CryptographyError::Asn1Parse(_)),
        add_location_rel(e, loc, r),
    ensures
        r == e,
{
}

/// Law: a serialization failure always materializes to the
/// memory-error-equivalent exception with its fixed message, independent of
/// any other state.
pub proof fn lemma_materialize_alloc(e: CryptographyError, r: PyException)
    requires
        e matches CryptographyError::Asn1Write(_),
        materialize_rel(e, r),
    ensures
        r matches PyException::MemoryError(m) && m@ == message::alloc_failure_message(),
{
}

/// Law: a backend failure materializes to the internal-error-equivalent
/// exception carrying exactly the captured records, in drain order; an empty
/// capture yields an empty (non-null) record list.
pub proof fn lemma_materialize_backend(e: CryptographyError, r: PyException)
    requires
        e matches CryptographyError::OpenSSL(_),
        materialize_rel(e, r),
    ensures
        e matches CryptographyError::OpenSSL(s) ==> (r matches PyException::InternalError(m, rs)
            && m@ == message::openssl_failure_message() && rs@ == s@),
{
}

/// Law: a host-runtime failure materializes to the wrapped exception itself,
/// unmodified.
pub proof fn lemma_materialize_passthrough(e: CryptographyError, r: PyException)
    requires
        e matches CryptographyError::Py(_),
        materialize_rel(e, r),
    ensures
        e matches CryptographyError::Py(x) ==> r == x,
{
}

} // verus!
