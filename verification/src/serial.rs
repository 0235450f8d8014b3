//! The identifier as one string field of a structured record: the field
//! holds the canonical text, and a field that cannot be read is answered
//! with a message that names it.

use vstd::prelude::*;
use vstd::string::StringExecFns;

use crate::guid::GUID;
use crate::text::{decode, encode, is_canonical};

verus! {

/// The message for a field that is no canonical text.
pub open spec fn refusal(field: Seq<char>) -> Seq<char> {
    "cannot convert "@ + field + " to guid"@
}

/// The string field that stands for `guid`: its canonical text.
pub fn serialize(guid: &GUID) -> (field: String)
    ensures
        field@ == encode(guid@),
{
    guid.to_string()
}

/// The `GUID` that the string field stands for, or a message that names the
/// field where it is no canonical text.
pub fn deserialize(field: &str) -> (r: Result<GUID, String>)
    ensures
        match r {
            Ok(guid) => is_canonical(field@) && guid@ == decode(field@),
            Err(message) => !is_canonical(field@) && message@ == refusal(field@),
        },
{
    match GUID::parse(field) {
        Ok(guid) => Ok(guid),
        Err(_) => {
            let mut message = String::from_str("cannot convert ");
            message.append(field);
            message.append(" to guid");
            Err(message)
        },
    }
}

} // verus!
