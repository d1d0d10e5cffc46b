//! Rendering of diagnostic messages.
//!
//! Every message the boundary shows is pinned here, both as a spec-level
//! sequence of characters and as the executable builder proved to produce
//! exactly that sequence.

use vstd::prelude::*;
use vstd::string::StringExecFns;
use crate::parse::{ParseError, ParseLocation};

verus! {

/// The decimal digit `d` as a one-character sequence.
pub open spec fn digit_seq(d: int) -> Seq<char> {
    if d == 0 {
        "0"@
    } else if d == 1 {
        "1"@
    } else if d == 2 {
        "2"@
    } else if d == 3 {
        "3"@
    } else if d == 4 {
        "4"@
    } else if d == 5 {
        "5"@
    } else if d == 6 {
        "6"@
    } else if d == 7 {
        "7"@
    } else if d == 8 {
        "8"@
    } else {
        "9"@
    }
}

/// The decimal rendering of a nonnegative integer, most significant digit
/// first, without leading zeros (except for zero itself).
pub open spec fn dec_rep(n: int) -> Seq<char>
    recommends
        0 <= n,
    decreases n,
{
    if n <= 9 {
        digit_seq(n)
    } else {
        dec_rep(n / 10) + digit_seq(n % 10)
    }
}

fn append_digit(s: &mut String, d: u64)
    requires
        d <= 9,
    ensures
        final(s)@ == old(s)@ + digit_seq(d as int),
{
    if d == 0 {
        s.append("0");
    } else if d == 1 {
        s.append("1");
    } else if d == 2 {
        s.append("2");
    } else if d == 3 {
        s.append("3");
    } else if d == 4 {
        s.append("4");
    } else if d == 5 {
        s.append("5");
    } else if d == 6 {
        s.append("6");
    } else if d == 7 {
        s.append("7");
    } else if d == 8 {
        s.append("8");
    } else {
        s.append("9");
    }
}

/// Appends the decimal rendering of `n` to `s`.
pub fn append_decimal(s: &mut String, n: u64)
    ensures
        final(s)@ == old(s)@ + dec_rep(n as int),
    decreases n,
{
    if n >= 10 {
        proof {
            assert(n / 10 < n) by (nonlinear_arith)
                requires
                    n >= 10,
            ;
        }
        append_decimal(s, n / 10);
        append_digit(s, n % 10);
    } else {
        append_digit(s, n);
    }
}

/// The text of one location marker: the field name itself, or the decimal
/// rendering of the index.
pub open spec fn location_text(l: ParseLocation) -> Seq<char> {
    match l {
        ParseLocation::Field(f) => f@,
        ParseLocation::Index(i) => dec_rep(i as int),
    }
}

/// Appends the text of one location marker to `s`.
pub fn append_location(s: &mut String, l: &ParseLocation)
    ensures
        final(s)@ == old(s)@ + location_text(*l),
{
    match l {
        ParseLocation::Field(f) => s.append(f.as_str()),
        ParseLocation::Index(i) => append_decimal(s, *i as u64),
    }
}

/// The rendering of a whole location path, innermost marker first, markers
/// separated by arrows.
pub open spec fn path_items(locs: Seq<ParseLocation>) -> Seq<char>
    decreases locs.len(),
{
    if locs.len() == 0 {
        Seq::empty()
    } else if locs.len() == 1 {
        location_text(locs[0])
    } else {
        path_items(locs.drop_last()) + " -> "@ + location_text(locs.last())
    }
}

proof fn lemma_path_items_snoc(locs: Seq<ParseLocation>, i: int)
    requires
        0 < i <= locs.len(),
    ensures
        path_items(locs.take(i)) == if i == 1 {
            location_text(locs[0])
        } else {
            path_items(locs.take(i - 1)) + " -> "@ + location_text(locs[i - 1])
        },
{
    let pre = locs.take(i);
    assert(pre.len() == i);
    if i > 1 {
        assert(pre.drop_last() =~= locs.take(i - 1));
        assert(pre.last() == locs[i - 1]);
    }
}

/// Appends the rendering of the location path to `s`.
pub fn append_path(s: &mut String, locs: &Vec<ParseLocation>)
    ensures
        final(s)@ == old(s)@ + path_items(locs@),
{
    let ghost init: Seq<char> = s@;
    let mut i: usize = 0;
    while i < locs.len()
        invariant
            i <= locs@.len(),
            s@ == init + path_items(locs@.take(i as int)),
        decreases locs@.len() - i,
    {
        if i > 0 {
            s.append(" -> ");
        }
        append_location(s, &locs[i]);
        i = i + 1;
        proof {
            lemma_path_items_snoc(locs@, i as int);
            assert(s@ == init + path_items(locs@.take(i as int)));
        }
    }
    proof {
        assert(locs@.take(locs@.len() as int) =~= locs@);
    }
}

/// The boundary message for a parsing failure: a fixed prefix, the failure's
/// description, and — when any location was gathered — the rendered path.
pub open spec fn parse_failure_message(e: ParseError) -> Seq<char> {
    if e.locations@.len() == 0 {
        "error parsing asn1 value: "@ + e.description@
    } else {
        "error parsing asn1 value: "@ + e.description@ + " (location: "@ + path_items(
            e.locations@,
        ) + ")"@
    }
}

/// Builds the boundary message for a parsing failure.
pub fn render_parse_failure(e: &ParseError) -> (r: String)
    ensures
        r@ == parse_failure_message(*e),
{
    let mut s = String::from_str("error parsing asn1 value: ");
    s.append(e.description.as_str());
    if e.locations.len() > 0 {
        s.append(" (location: ");
        append_path(&mut s, &e.locations);
        s.append(")");
    }
    s
}

/// The fixed message for allocation exhaustion during serialization.
pub open spec fn alloc_failure_message() -> Seq<char> {
    "failed to allocate memory while performing ASN.1 serialization"@
}

/// Builds the allocation-exhaustion message.
pub fn alloc_failure_text() -> (r: String)
    ensures
        r@ == alloc_failure_message(),
{
    String::from_str("failed to allocate memory while performing ASN.1 serialization")
}

/// The fixed message accompanying aggregated backend diagnostics.
pub open spec fn openssl_failure_message() -> Seq<char> {
    "Unknown OpenSSL error. This error is commonly encountered when another library is not cleaning up the OpenSSL error stack. If you are using cryptography with another library that uses OpenSSL try disabling it before reporting a bug. Otherwise please file an issue at https://github.com/pyca/cryptography/issues with information on how to reproduce this."@
}

/// Builds the backend-failure message.
pub fn openssl_failure_text() -> (r: String)
    ensures
        r@ == openssl_failure_message(),
{
    String::from_str(
        "Unknown OpenSSL error. This error is commonly encountered when another library is not cleaning up the OpenSSL error stack. If you are using cryptography with another library that uses OpenSSL try disabling it before reporting a bug. Otherwise please file an issue at https://github.com/pyca/cryptography/issues with information on how to reproduce this.",
    )
}

/// The remediation document cited whenever an envelope cannot be loaded.
pub open spec fn pem_doc_url() -> Seq<char> {
    "https://cryptography.io/en/latest/faq/#why-can-t-i-import-my-pem-file"@
}

/// The message for an envelope-loading failure: a fixed, documentation-linked
/// sentence followed by the domain detail.
pub open spec fn pem_failure_message(detail: Seq<char>) -> Seq<char> {
    "Unable to load PEM file. See "@ + pem_doc_url() + " for more details. "@ + detail
}

/// Builds the envelope-loading-failure message around `detail`.
pub fn pem_failure_text(detail: &String) -> (r: String)
    ensures
        r@ == pem_failure_message(detail@),
{
    let mut s = String::from_str("Unable to load PEM file. See ");
    s.append("https://cryptography.io/en/latest/faq/#why-can-t-i-import-my-pem-file");
    s.append(" for more details. ");
    s.append(detail.as_str());
    s
}

/// `needle` occurs contiguously somewhere inside `hay`.
pub open spec fn contains_seq(hay: Seq<char>, needle: Seq<char>) -> bool {
    exists|i: int|
        0 <= i && i + needle.len() <= hay.len() && #[trigger] hay.subrange(
            i,
            i + needle.len() as int,
        ) == needle
}

/// Law: every envelope-loading-failure message cites the remediation
/// document, whatever the detail text is.
pub proof fn lemma_pem_message_cites_docs(detail: Seq<char>)
    ensures
        contains_seq(pem_failure_message(detail), pem_doc_url()),
{
    let a = "Unable to load PEM file. See "@;
    let m = pem_failure_message(detail);
    let u = pem_doc_url();
    assert(m.subrange(a.len() as int, a.len() + u.len() as int) =~= u);
}

} // verus!
