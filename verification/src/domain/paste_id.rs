//! The identifier under which a paste is stored and retrieved.

use crate::domain::text::{
    grapheme_count, grapheme_count_of, has_forbidden, is_blank, is_forbidden, is_lower_hex,
    is_space, str_has_forbidden, str_is_blank,
};
use uuid::Uuid;
use vstd::prelude::*;
use vstd::string::StringExecFns;

verus! {

/// The largest number of grapheme clusters an identifier may have.
pub const MAX_ID_GRAPHEMES: usize = 256;

/// A valid identifier is not blank, has at most [`MAX_ID_GRAPHEMES`]
/// grapheme clusters, and contains no forbidden character.
pub open spec fn id_ok(s: Seq<char>) -> bool {
    &&& !is_blank(s)
    &&& grapheme_count(s) <= MAX_ID_GRAPHEMES
    &&& !has_forbidden(s)
}

/// The message [`PasteId::parse`] rejects an invalid input with. The checks
/// run in this order: blankness first, then length, then the forbidden
/// characters.
pub open spec fn id_error_message(s: Seq<char>) -> Seq<char> {
    if is_blank(s) {
        "not a valid paste id - empty string"@
    } else if grapheme_count(s) > MAX_ID_GRAPHEMES {
        s + " is not a valid paste id - too long"@
    } else {
        s + " is not a valid paste id - invalid char"@
    }
}

/// A validated paste identifier: the key under which content is stored.
/// Constructed only by [`PasteId::parse`] and [`PasteId::random`], so a
/// value of this type always satisfies [`id_ok`]. Never mutated.
#[derive(Debug)]
pub struct PasteId(String);

impl View for PasteId {
    type V = Seq<char>;

    closed spec fn view(&self) -> Seq<char> {
        self.0@
    }
}

impl PasteId {
    /// Every identifier in circulation is valid.
    pub open spec fn wf(&self) -> bool {
        id_ok(self@)
    }

    /// Validates a raw identifier. Succeeds exactly on valid input and then
    /// stores the input unchanged; fails with the message naming the first
    /// rule broken.
    pub fn parse(s: String) -> (r: Result<PasteId, String>)
        ensures
            r is Ok <==> id_ok(s@),
            r matches Ok(id) ==> id@ == s@ && id.wf(),
            r matches Err(m) ==> m@ == id_error_message(s@),
    {
        if str_is_blank(s.as_str()) {
            return Err(String::from_str("not a valid paste id - empty string"));
        }
        let count = grapheme_count_of(s.as_str());
        if count > MAX_ID_GRAPHEMES {
            return Err(s.concat(" is not a valid paste id - too long"));
        }
        if str_has_forbidden(s.as_str()) {
            return Err(s.concat(" is not a valid paste id - invalid char"));
        }
        Ok(PasteId(s))
    }

    /// A fresh identifier drawn from a 128-bit random space: the canonical
    /// 36-character text of a version-4 UUID. Always a valid identifier.
    pub fn random() -> (r: PasteId)
        ensures
            r.wf(),
            r@.len() == 36,
    {
        let s = fresh_uuid_text();
        let count = grapheme_count_of(s.as_str());
        proof {
            assert(is_lower_hex(s@[0]));
            assert(!is_space(s@[0]));
            assert(!is_blank(s@));
            assert(forall|j: int| 0 <= j < s@.len() ==> !is_forbidden(#[trigger] s@[j]));
            assert(count <= 36);
        }
        PasteId(s)
    }

    /// The underlying string, for use as a storage key and in response
    /// bodies.
    pub fn as_str(&self) -> (r: &str)
        ensures
            r@ == self@,
    {
        self.0.as_str()
    }
}

impl Clone for PasteId {
    /// The copy carries the same identifier text.
    fn clone(&self) -> (r: Self)
        ensures
            r@ == self@,
    {
        PasteId(self.0.clone())
    }
}

impl PartialEq for PasteId {
    fn eq(&self, other: &PasteId) -> bool {
        self.0 == other.0
    }
}

impl vstd::std_specs::cmp::PartialEqSpecImpl for PasteId {
    open spec fn obeys_eq_spec() -> bool {
        true
    }

    open spec fn eq_spec(&self, other: &PasteId) -> bool {
        self@ == other@
    }
}

/// Relies on `uuid::Uuid::new_v4` and its `Display` form: the hyphenated
/// canonical text of a UUID, 36 characters long, made of lowercase
/// hexadecimal digits in five groups separated by `-` at fixed positions.
#[verifier::external_body]
fn fresh_uuid_text() -> (r: String)
    ensures
        r@.len() == 36,
        forall|i: int|
            0 <= i < 36 ==> if i == 8 || i == 13 || i == 18 || i == 23 {
                #[trigger] r@[i] == '-'
            } else {
                is_lower_hex(r@[i])
            },
{
    Uuid::new_v4().to_string()
}

} // verus!
