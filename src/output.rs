use vstd::prelude::*;
use vstd::utf8::{decode_utf8, valid_utf8};

use crate::error::RemoteError;

verus! {

/// Relies on `String::from_utf8`: it succeeds exactly on valid UTF-8 and
/// then holds the decoded characters.
#[verifier::external_body]
fn string_from_utf8(bytes: Vec<u8>) -> (r: Option<String>)
    ensures
        r is Some <==> valid_utf8(bytes@),
        r matches Some(s) ==> s@ == decode_utf8(bytes@),
{
    String::from_utf8(bytes).ok()
}

/// The text of a command's output, read to the end of its exec channel:
/// the bytes decoded as UTF-8, unchanged otherwise; output that is not
/// UTF-8 is an error.
pub fn command_output(bytes: Vec<u8>) -> (r: Result<String, RemoteError>)
    ensures
        valid_utf8(bytes@) ==> (r matches Ok(s) && s@ == decode_utf8(bytes@)),
        !valid_utf8(bytes@) ==> r == Err::<String, RemoteError>(RemoteError::Decode),
{
    match string_from_utf8(bytes) {
        Some(s) => Ok(s),
        None => Err(RemoteError::Decode),
    }
}

} // verus!
