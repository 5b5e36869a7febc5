//! Error taxonomy for the extraction pipeline.

use vstd::prelude::*;

verus! {

/// Every failure of an extraction run falls in one of these classes.
///
/// - `Configuration`: the caller supplied an empty row-index selection;
///   rejected before any read is attempted.
/// - `Format`: a named group parameter was not found among the scanned
///   header keys.
/// - `Io`: opening the source or reading a group failed; produced only at
///   the I/O boundary, never by the library's own computations.
/// - `Shape`: an internal invariant was violated (a raw payload block whose
///   length is not the expected per-group float count); indicates a defect
///   in the caller's read loop, not a user condition.
#[derive(Debug, Clone, Copy, PartialEq, Eq, Structural)]
pub enum ExtractError {
    Configuration,
    Format,
    Io,
    Shape,
}

impl ExtractError {
    /// A short human-readable description, for diagnostics at the
    /// program's edge.
    pub fn describe(&self) -> (s: &'static str)
        ensures
            s@.len() > 0,
    {
        proof {
            reveal_strlit("empty row-index selection");
            reveal_strlit("named group parameter not found in header");
            reveal_strlit("read failure");
            reveal_strlit("raw payload block of unexpected length");
        }
        match self {
            ExtractError::Configuration => "empty row-index selection",
            ExtractError::Format => "named group parameter not found in header",
            ExtractError::Io => "read failure",
            ExtractError::Shape => "raw payload block of unexpected length",
        }
    }
}

} // verus!
