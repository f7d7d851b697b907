//! The two decoders the credential resolver relies on. Their contracts are
//! taken on trust: nothing here is proved of the code they call.

use vstd::prelude::*;
use vstd::utf8::{decode_utf8, valid_utf8};

verus! {

/// The error of `base64::decode`. Nothing is read from it.
#[verifier::external_type_specification]
#[verifier::external_body]
pub struct ExDecodeError(base64::DecodeError);

/// The error of `String::from_utf8`. Nothing is read from it.
#[verifier::external_type_specification]
#[verifier::external_body]
pub struct ExFromUtf8Error(std::string::FromUtf8Error);

/// The bytes that `input` stands for in standard base64, or `None` where
/// `input` is not base64.
pub uninterp spec fn base64_decoding(input: Seq<char>) -> Option<Seq<u8>>;

/// Calls `base64::decode`, which decodes with the standard alphabet and
/// padding. The contract claims only that the outcome is a function of the
/// text: the decoded bytes, or an error, are those that [`base64_decoding`]
/// names.
#[verifier::external_body]
pub(crate) fn decode_base64(input: &str) -> (r: Result<Vec<u8>, base64::DecodeError>)
    ensures
        match r {
            Ok(bytes) => base64_decoding(input@) == Some(bytes@),
            Err(_) => base64_decoding(input@) is None,
        },
{
    base64::decode(input)
}

/// Calls `String::from_utf8`. The contract claims that it succeeds exactly on
/// well-formed UTF-8 and then yields the text those bytes encode.
#[verifier::external_body]
pub(crate) fn text_from_utf8(bytes: Vec<u8>) -> (r: Result<String, std::string::FromUtf8Error>)
    ensures
        r is Ok <==> valid_utf8(bytes@),
        r matches Ok(text) ==> text@ == decode_utf8(bytes@),
{
    String::from_utf8(bytes)
}

} // verus!
