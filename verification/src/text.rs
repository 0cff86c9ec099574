//! Text fields of the wire format: converting the raw bytes of a filename,
//! mode or error message into `String` values and checking that a field can
//! be framed at all.

use vstd::prelude::*;
use vstd::string::StringSliceAdditionalSpecFns;
use vstd::utf8::{decode_utf8, decode_utf8_encode_utf8, encode_utf8, valid_utf8};
use crate::wire::valid_text_bytes;

verus! {

#[verifier::external_type_specification]
#[verifier::external_body]
pub struct ExFromUtf8Error(std::string::FromUtf8Error);

/// Relies on `String::from_utf8`: succeeds exactly on valid UTF-8 input and
/// returns the string those bytes encode.
pub assume_specification[ String::from_utf8 ](vec: Vec<u8>) -> (r: Result<
    String,
    std::string::FromUtf8Error,
>)
    ensures
        r is Ok <==> valid_utf8(vec@),
        r matches Ok(s) ==> s@ == decode_utf8(vec@),
;

/// Decodes a byte field into text; `None` exactly when the bytes are not
/// valid UTF-8.  A decoded field encodes back to the bytes it came from.
pub fn bytes_to_text(v: Vec<u8>) -> (r: Option<String>)
    ensures
        r is Some <==> valid_utf8(v@),
        r matches Some(s) ==> s@ == decode_utf8(v@) && encode_utf8(s@) == v@,
{
    let ghost bytes = v@;
    match String::from_utf8(v) {
        Ok(s) => {
            proof {
                decode_utf8_encode_utf8(bytes);
            }
            Some(s)
        },
        Err(_) => None,
    }
}

/// Checks that `s` can stand as a filename or mode field on the wire:
/// non-empty and free of NUL bytes.
pub fn is_valid_text(s: &str) -> (r: bool)
    ensures
        r == valid_text_bytes(s.spec_bytes()),
{
    let b = s.as_bytes();
    if b.len() == 0 {
        return false;
    }
    let mut j: usize = 0;
    while j < b.len()
        invariant
            j <= b@.len(),
            b@ == s.spec_bytes(),
            forall|k: int| 0 <= k < j ==> b@[k] != 0,
        decreases b@.len() - j,
    {
        if b[j] == 0 {
            return false;
        }
        j += 1;
    }
    true
}

} // verus!
