//! The identifier: sixteen bytes, with its constructors and accessors.

use vstd::prelude::*;

use crate::ascii::lemma_canonical_utf8;
use crate::bytes::{u16_of_be, u16_to_be, u32_of_be, u32_to_be};
use crate::entropy::random_bytes;
use crate::error::ParseError;
use crate::laws::lemma_decode_encode;
use crate::layout::{field1, field2, field3, field4, from_fields, lemma_from_fields_of_fields};
use crate::layout::BYTE_LEN;
use crate::text::{decode, encode, format_text, is_canonical, parse_text, TEXT_LEN};

verus! {

/// A GUID backed by a 16 byte array.
///
/// Any sixteen bytes are a `GUID`: no bit of them is reserved.
#[derive(Copy, Clone, Debug, Hash)]
pub struct GUID {
    data: [u8; 16],
}

impl View for GUID {
    type V = Seq<u8>;

    /// The sixteen stored bytes, in order.
    closed spec fn view(&self) -> Seq<u8> {
        self.data@
    }
}

impl GUID {
    /// Construct a `GUID` from components.
    ///
    /// The three integers are stored in big-endian order in the first eight
    /// bytes, `d4` is copied into the last eight.
    pub fn build_from_components(d1: u32, d2: u16, d3: u16, d4: &[u8; 8]) -> (g: GUID)
        ensures
            g@ == from_fields(d1, d2, d3, d4@),
    {
        let d1 = u32_to_be(d1);
        let d2 = u16_to_be(d2);
        let d3 = u16_to_be(d3);
        let data = [
            d1[0], d1[1], d1[2], d1[3],
            d2[0], d2[1],
            d3[0], d3[1],
            d4[0], d4[1], d4[2], d4[3], d4[4], d4[5], d4[6], d4[7],
        ];
        GUID { data }
    }

    /// Construct a `GUID` from 16 bytes.
    pub fn build_from_slice(data: &[u8; 16]) -> (g: GUID)
        ensures
            g@ == data@,
    {
        GUID { data: *data }
    }

    /// Construct a `GUID` from a string.
    ///
    /// The string must be in the canonical form,
    /// `XXXXXXXX-XXXX-XXXX-XXXX-XXXXXXXXXXXX`, with digits of either case and
    /// nothing before or after it. Any other string is an error.
    pub fn parse(guid: &str) -> (r: Result<GUID, ParseError>)
        ensures
            match r {
                Ok(g) => is_canonical(guid@) && g@ == decode(guid@),
                Err(_) => !is_canonical(guid@),
            },
    {
        proof {
            lemma_canonical_utf8(guid@);
        }
        match parse_text(guid.as_bytes()) {
            Ok(data) => Ok(GUID { data }),
            Err(e) => Err(e),
        }
    }

    /// Generates a new GUID with 16 random bytes.
    ///
    /// Each call draws its bytes anew, so nothing more is known of the result
    /// than that it is a `GUID`. Two results may meet: nothing guards against
    /// it but the size of the space.
    pub fn rand() -> (g: GUID)
        ensures
            g@.len() == BYTE_LEN,
    {
        let data = random_bytes();
        GUID::build_from_slice(&data)
    }

    /// The first four bytes, as a big-endian integer.
    pub fn data1(&self) -> (r: u32)
        ensures
            r == field1(self@),
    {
        u32_of_be(self.data[0], self.data[1], self.data[2], self.data[3])
    }

    /// Bytes 5 and 6, as a big-endian integer.
    pub fn data2(&self) -> (r: u16)
        ensures
            r == field2(self@),
    {
        u16_of_be(self.data[4], self.data[5])
    }

    /// Bytes 7 and 8, as a big-endian integer.
    pub fn data3(&self) -> (r: u16)
        ensures
            r == field3(self@),
    {
        u16_of_be(self.data[6], self.data[7])
    }

    /// The last eight bytes.
    pub fn data4(&self) -> (r: [u8; 8])
        ensures
            r@ == field4(self@),
    {
        [
            self.data[8], self.data[9], self.data[10], self.data[11],
            self.data[12], self.data[13], self.data[14], self.data[15],
        ]
    }

    /// The sixteen bytes, in order.
    pub fn to_bytes(&self) -> (r: [u8; 16])
        ensures
            r@ == self@,
    {
        self.data
    }

    /// The canonical form of the `GUID`: upper-case digits, 36 characters.
    ///
    /// Reading the text gives the `GUID` back.
    pub fn to_string(&self) -> (s: String)
        ensures
            s@ == encode(self@),
            s@.len() == TEXT_LEN,
            is_canonical(s@),
            decode(s@) == self@,
    {
        proof {
            lemma_decode_encode(self@);
        }
        format_text(&self.data)
    }

    /// A `GUID` has sixteen bytes.
    pub proof fn lemma_len(self)
        ensures
            self@.len() == BYTE_LEN,
    {
    }

    /// Two `GUID`s are equal exactly if their sixteen bytes are.
    pub proof fn lemma_equal(self, other: GUID)
        ensures
            self == other <==> self@ == other@,
    {
        if self@ == other@ {
            assert(self.data =~= other.data);
        }
    }

    /// `GUID`s built from the same sixteen bytes are equal, whether the bytes
    /// were given as they are, as their four fields, or as their text.
    pub proof fn lemma_constructors_agree(
        b: Seq<u8>,
        of_bytes: GUID,
        of_fields: GUID,
        of_text: GUID,
    )
        requires
            b.len() == BYTE_LEN,
            of_bytes@ == b,
            of_fields@ == from_fields(field1(b), field2(b), field3(b), field4(b)),
            of_text@ == decode(encode(b)),
        ensures
            of_bytes == of_fields,
            of_bytes == of_text,
    {
        lemma_from_fields_of_fields(b);
        lemma_decode_encode(b);
        of_bytes.lemma_equal(of_fields);
        of_bytes.lemma_equal(of_text);
    }
}

impl PartialEq for GUID {
    /// Equality of all sixteen bytes.
    fn eq(&self, other: &GUID) -> (r: bool) {
        let mut i: usize = 0;
        while i < 16
            invariant
                i <= 16,
                forall|j: int| 0 <= j < i ==> self.data[j] == other.data[j],
            decreases 16 - i,
        {
            if self.data[i] != other.data[i] {
                return false;
            }
            i += 1;
        }
        assert(self@ =~= other@);
        true
    }
}

impl vstd::std_specs::cmp::PartialEqSpecImpl for GUID {
    open spec fn obeys_eq_spec() -> bool {
        true
    }

    open spec fn eq_spec(&self, other: &GUID) -> bool {
        self@ == other@
    }
}

impl Eq for GUID {

}

impl Default for GUID {
    /// The `GUID` of sixteen zero bytes.
    fn default() -> (g: GUID)
        ensures
            g@ == Seq::new(16, |i: int| 0u8),
    {
        let g = GUID { data: [0u8;16] };
        g
    }
}

} // verus!
