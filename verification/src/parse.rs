//! Failures of the ASN.1 structured-data layer, as plain values.
//!
//! A parsing failure carries a description of what went wrong together with a
//! location path: the ordered markers (field names, sequence indices) that
//! identify where inside a structured value the failure occurred. The first
//! entry of the path is nearest the point of failure; enrichment while
//! unwinding only ever appends toward the outermost caller.

use vstd::prelude::*;

verus! {

/// One marker of a location path: a named field or a position in a sequence.
#[derive(Debug, Clone, PartialEq, Eq)]
pub enum ParseLocation {
    Field(String),
    Index(usize),
}

/// An ASN.1 parsing failure: a description plus the location path gathered so
/// far, innermost marker first.
#[derive(Debug, Clone, PartialEq, Eq)]
pub struct ParseError {
    pub description: String,
    pub locations: Vec<ParseLocation>,
}

impl ParseError {
    /// A fresh parsing failure with an empty location path.
    pub fn new(description: String) -> (r: ParseError)
        ensures
            r.description == description,
            r.locations@ =~= Seq::<ParseLocation>::empty(),
    {
        ParseError { description, locations: Vec::new() }
    }

    /// Appends one marker to the location path; nothing else changes.
    pub fn add_location(self, loc: ParseLocation) -> (r: ParseError)
        ensures
            r.description == self.description,
            r.locations@ == self.locations@.push(loc),
    {
        let mut locations = self.locations;
        locations.push(loc);
        ParseError { description: self.description, locations }
    }
}

/// An ASN.1 serialization failure. Allocation exhaustion is the one case the
/// boundary distinguishes.
#[derive(Debug, Clone, Copy, PartialEq, Eq, Structural)]
pub enum WriteError {
    AllocationError,
}

} // verus!
