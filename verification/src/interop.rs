//! Exchange with the record by which the Windows API holds a GUID. The
//! record has the four fields of the binary model, each under its Windows
//! name, so nothing is lost either way.

use vstd::prelude::*;

use crate::guid::GUID;
use crate::layout::{field1, field2, field3, field4, from_fields};
use crate::layout::{lemma_fields_of_from_fields, lemma_from_fields_of_fields};

verus! {

/// A GUID as the Windows API lays it out: the four fields, as values.
#[allow(non_snake_case)]
#[derive(Copy, Clone, Debug)]
pub struct WinGuid {
    pub Data1: u32,
    pub Data2: u16,
    pub Data3: u16,
    pub Data4: [u8; 8],
}

impl WinGuid {
    /// The sixteen bytes that hold the four fields of the record.
    pub open spec fn bytes(self) -> Seq<u8> {
        from_fields(self.Data1, self.Data2, self.Data3, self.Data4@)
    }
}

impl GUID {
    /// Convert the `GUID` to a Windows record.
    pub fn as_winapi_guid(&self) -> (w: WinGuid)
        ensures
            w.Data1 == field1(self@),
            w.Data2 == field2(self@),
            w.Data3 == field3(self@),
            w.Data4@ == field4(self@),
            w.bytes() == self@,
    {
        proof {
            self.lemma_len();
            lemma_from_fields_of_fields(self@);
        }
        WinGuid {
            Data1: self.data1(),
            Data2: self.data2(),
            Data3: self.data3(),
            Data4: self.data4(),
        }
    }

    /// Convert a Windows record to a `GUID`.
    pub fn from_winapi_guid(guid: WinGuid) -> (g: GUID)
        ensures
            g@ == guid.bytes(),
            field1(g@) == guid.Data1,
            field2(g@) == guid.Data2,
            field3(g@) == guid.Data3,
            field4(g@) == guid.Data4@,
    {
        proof {
            lemma_fields_of_from_fields(guid.Data1, guid.Data2, guid.Data3, guid.Data4@);
        }
        GUID::build_from_components(guid.Data1, guid.Data2, guid.Data3, &guid.Data4)
    }
}

} // verus!
