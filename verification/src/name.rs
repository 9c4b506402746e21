//! Entry names: from the wide characters that the decoder writes to text.

use vstd::prelude::*;
use crate::error::SevenZipError;

verus! {

/// The error of `String::from_utf16`, `std::string::FromUtf16Error`. Nothing
/// is claimed of what it holds.
#[verifier::external_type_specification]
#[verifier::external_body]
pub struct ExFromUtf16Error(std::string::FromUtf16Error);

/// What `String::from_utf16` makes of a sequence of code units: the text
/// that they encode, or `None` where they are not valid UTF-16.
pub uninterp spec fn utf16_text(units: Seq<u16>) -> Option<Seq<char>>;

/// Calls `String::from_utf16`. The standard library documents that it decodes
/// a UTF-16 encoded slice into a `String` and returns an error if the slice
/// holds invalid data; the result depends on the code units alone, and
/// `utf16_text` names it.
#[verifier::external_body]
pub(crate) fn string_from_utf16(units: &[u16]) -> (decoded: Result<
    String,
    std::string::FromUtf16Error,
>)
    ensures
        match decoded {
            Ok(text) => utf16_text(units@) == Some(text@),
            Err(_) => utf16_text(units@) is None,
        },
{
    String::from_utf16(units)
}

/// The code units of a name among those the decoder wrote: all but the
/// terminator that closes them.
pub open spec fn name_units(written: Seq<u16>) -> Seq<u16> {
    if written.len() == 0 {
        written
    } else {
        written.drop_last()
    }
}

/// The outcome of resolving a name from the units the decoder wrote.
pub open spec fn resolved_name(written: Seq<u16>) -> Result<Seq<char>, SevenZipError> {
    match utf16_text(name_units(written)) {
        Some(text) => Ok(text),
        None => Err(SevenZipError::Encoding),
    }
}

/// Turns the outcome of UTF-16 decoding into the engine's own result: the
/// text as it is, and any decoding failure as [`SevenZipError::Encoding`].
pub fn name_from_utf16(decoded: Result<String, std::string::FromUtf16Error>) -> (name: Result<
    String,
    SevenZipError,
>)
    ensures
        match decoded {
            Ok(text) => name == Ok::<String, SevenZipError>(text),
            Err(_) => name == Err::<String, SevenZipError>(SevenZipError::Encoding),
        },
{
    match decoded {
        Ok(text) => Ok(text),
        Err(_) => Err(SevenZipError::Encoding),
    }
}

} // verus!
