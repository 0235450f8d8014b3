//! The one error of the library.

use vstd::prelude::*;

verus! {

/// Parsing error type.
///
/// Raised when a text is not in the canonical form; it does not say which
/// character was at fault.
#[derive(Debug)]
pub struct ParseError;

impl ParseError {
    /// A description of the text that was expected.
    pub fn to_string(&self) -> (s: String)
        ensures
            s@ == "Malformed GUID, expecting XXXXXXXX-XXXX-XXXX-XXXX-XXXXXXXXXXXX"@,
    {
        "Malformed GUID, expecting XXXXXXXX-XXXX-XXXX-XXXX-XXXXXXXXXXXX".to_owned()
    }
}

} // verus!
