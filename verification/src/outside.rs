//! Outside types that values of this crate carry, and the one outside function that it calls.

use vstd::prelude::*;
use vstd::utf8::*;

verus! {

/// `tempfile::TempPath`: the handle of a temporary file, which removes the file when it is
/// dropped. It is only carried; nothing is said of it.
#[verifier::external_type_specification]
#[verifier::external_body]
pub struct ExTempPath(tempfile::TempPath);

/// `std::io::Error`. It is only carried; nothing is said of it.
#[verifier::external_type_specification]
#[verifier::external_body]
pub struct ExIoError(std::io::Error);

/// The text that `String::from_utf8_lossy` makes of `bytes`.
pub uninterp spec fn utf8_lossy(bytes: Seq<u8>) -> Seq<char>;

/// `String::from_utf8_lossy`. The result depends on the bytes alone, and bytes that are
/// valid UTF-8 come out as the text that they encode. Which characters stand for bytes that
/// are not valid UTF-8 is left to the name `utf8_lossy`.
#[verifier::external_body]
pub(crate) fn from_utf8_lossy(bytes: &[u8]) -> (text: String)
    ensures
        text@ == utf8_lossy(bytes@),
        valid_utf8(bytes@) ==> text@ == decode_utf8(bytes@),
{
    String::from_utf8_lossy(bytes).into_owned()
}

} // verus!
