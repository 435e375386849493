//! The text body of a paste.

use crate::domain::text::{grapheme_count, grapheme_count_of, is_blank, str_is_blank};
use vstd::prelude::*;
use vstd::string::StringExecFns;
use vstd::utf8::{decode_utf8, valid_utf8};

verus! {

/// The largest number of grapheme clusters a paste body may have.
pub const MAX_CONTENT_GRAPHEMES: usize = 256;

/// Valid content is not blank and has at most [`MAX_CONTENT_GRAPHEMES`]
/// grapheme clusters.
pub open spec fn content_ok(s: Seq<char>) -> bool {
    &&& !is_blank(s)
    &&& grapheme_count(s) <= MAX_CONTENT_GRAPHEMES
}

/// The message [`PasteContent::parse`] rejects an invalid string with:
/// blankness is reported first, then excessive length.
pub open spec fn content_error_message(s: Seq<char>) -> Seq<char> {
    if is_blank(s) {
        "not valid paste content - empty string"@
    } else {
        s + " is not valid paste content - too long"@
    }
}

/// The message for bytes that do not decode as UTF-8.
pub open spec fn encoding_error_message() -> Seq<char> {
    "not valid paste content - invalid encoding"@
}

/// A validated paste body. Constructed once per write request by
/// [`PasteContent::parse`] or [`PasteContent::parse_from_bytes`]; never
/// mutated afterwards.
#[derive(Debug)]
pub struct PasteContent(String);

impl View for PasteContent {
    type V = Seq<char>;

    closed spec fn view(&self) -> Seq<char> {
        self.0@
    }
}

impl PasteContent {
    /// Every content value in circulation is valid.
    pub open spec fn wf(&self) -> bool {
        content_ok(self@)
    }

    /// Validates a raw string. Succeeds exactly on valid content and then
    /// stores the input unchanged; fails with the message naming the first
    /// rule broken.
    pub fn parse(s: String) -> (r: Result<PasteContent, String>)
        ensures
            r is Ok <==> content_ok(s@),
            r matches Ok(c) ==> c@ == s@ && c.wf(),
            r matches Err(m) ==> m@ == content_error_message(s@),
    {
        if str_is_blank(s.as_str()) {
            return Err(String::from_str("not valid paste content - empty string"));
        }
        let count = grapheme_count_of(s.as_str());
        if count > MAX_CONTENT_GRAPHEMES {
            return Err(s.concat(" is not valid paste content - too long"));
        }
        Ok(PasteContent(s))
    }

    /// Validates a raw request body. Fails on bytes that are not UTF-8;
    /// otherwise decodes them and validates the string as [`Self::parse`]
    /// does.
    pub fn parse_from_bytes(bytes: Vec<u8>) -> (r: Result<PasteContent, String>)
        ensures
            r is Ok <==> valid_utf8(bytes@) && content_ok(decode_utf8(bytes@)),
            r matches Ok(c) ==> c@ == decode_utf8(bytes@) && c.wf(),
            r matches Err(m) ==> m@ == if !valid_utf8(bytes@) {
                encoding_error_message()
            } else {
                content_error_message(decode_utf8(bytes@))
            },
    {
        match decode_utf8_bytes(bytes) {
            Some(s) => Self::parse(s),
            None => Err(String::from_str("not valid paste content - invalid encoding")),
        }
    }

    /// The underlying string, for storage and for response bodies.
    pub fn as_str(&self) -> (r: &str)
        ensures
            r@ == self@,
    {
        self.0.as_str()
    }
}

impl Clone for PasteContent {
    /// The copy carries the same text.
    fn clone(&self) -> (r: Self)
        ensures
            r@ == self@,
    {
        PasteContent(self.0.clone())
    }
}

/// Relies on `String::from_utf8`: it succeeds exactly when the bytes are
/// valid UTF-8, and then returns the string those bytes encode.
#[verifier::external_body]
fn decode_utf8_bytes(bytes: Vec<u8>) -> (r: Option<String>)
    ensures
        r is Some <==> valid_utf8(bytes@),
        r matches Some(s) ==> s@ == decode_utf8(bytes@),
{
    String::from_utf8(bytes).ok()
}

} // verus!
