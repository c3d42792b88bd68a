//! Decoding of caller-supplied bytes into text.

use vstd::prelude::*;
use vstd::string::*;
use vstd::utf8::*;

verus! {

/// The error that `core::str::from_utf8` reports. Nothing is known of its inside.
#[verifier::external_type_specification]
#[verifier::external_body]
pub struct ExUtf8Error(core::str::Utf8Error);

/// `core::str::from_utf8` accepts exactly the byte strings that are well-formed
/// UTF-8, and the text it returns is made of the bytes it was given.
pub assume_specification[ core::str::from_utf8 ](v: &[u8]) -> (r: Result<
    &str,
    core::str::Utf8Error,
>)
    ensures
        r is Ok <==> valid_utf8(v@),
        r matches Ok(s) ==> s.spec_bytes() == v@,
;

/// The text that well-formed UTF-8 `bytes` spell.
pub open spec fn decoded(bytes: Seq<u8>) -> Seq<char>
    recommends
        valid_utf8(bytes),
{
    decode_utf8(bytes)
}

/// Decodes `bytes` as UTF-8: the text they spell, or the decoder's complaint.
pub fn decode(bytes: &[u8]) -> (r: Result<String, core::str::Utf8Error>)
    ensures
        r is Ok <==> valid_utf8(bytes@),
        r matches Ok(s) ==> s@ == decoded(bytes@),
{
    match core::str::from_utf8(bytes) {
        Ok(s) => {
            proof {
                encode_utf8_decode_utf8(s@);
            }
            Ok(s.to_owned())
        },
        Err(e) => Err(e),
    }
}

} // verus!
