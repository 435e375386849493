//! The storage contract every backend must satisfy.

use crate::domain::{NewPaste, PasteContent, PasteId};
use vstd::prelude::*;
use vstd::string::StringExecFns;

verus! {

/// What a repository operation can fail with: the key was absent on a read,
/// or the backend could not persist a write.
#[derive(Debug)]
pub enum RepositoryError {
    NotFound(String),
    WriteFailure(String),
}

impl RepositoryError {
    /// The human-readable message, which is also the wire-level response
    /// body for the error.
    pub fn message(&self) -> (r: String)
        ensures
            self matches RepositoryError::NotFound(id) ==> r@ == "Not found: "@ + id@,
            self matches RepositoryError::WriteFailure(why) ==> r@ == "Failed to write: "@
                + why@,
    {
        match self {
            RepositoryError::NotFound(id) => String::from_str("Not found: ").concat(id.as_str()),
            RepositoryError::WriteFailure(why) => String::from_str("Failed to write: ").concat(
                why.as_str(),
            ),
        }
    }

    /// The response status the error maps to: an absent key is reported as
    /// 404, a failed write as 400.
    pub fn status(&self) -> (r: u16)
        ensures
            self matches RepositoryError::NotFound(_) ==> r == 404,
            self matches RepositoryError::WriteFailure(_) ==> r == 400,
    {
        match self {
            RepositoryError::NotFound(_) => 404,
            RepositoryError::WriteFailure(_) => 400,
        }
    }
}

/// A store of pastes: a mapping from identifier to content, abstracted as a
/// `Map` from the identifier's text to the content's text. Every backend
/// must keep exactly these semantics: `insert` overwrites (last write
/// wins), `find_one` returns the stored content for an exact key match and
/// reports an absent key as `NotFound` carrying that key.
pub trait Repository: Sized {
    /// The backend's internal well-formedness.
    spec fn wf(&self) -> bool;

    /// The mapping the backend currently represents.
    spec fn model(&self) -> Map<Seq<char>, Seq<char>>;

    /// An empty store.
    fn new() -> (r: Self)
        ensures
            r.wf(),
            r.model() == Map::<Seq<char>, Seq<char>>::empty(),
    ;

    /// Looks the identifier up. Succeeds exactly when it is present, and
    /// then returns the content stored under it; otherwise fails with
    /// `NotFound` carrying the identifier.
    fn find_one(&self, id: PasteId) -> (r: Result<PasteContent, RepositoryError>)
        requires
            self.wf(),
        ensures
            r is Ok <==> self.model().contains_key(id@),
            r matches Ok(c) ==> c@ == self.model()[id@],
            r matches Err(e) ==> e matches RepositoryError::NotFound(s) && s@ == id@,
    ;

    /// Stores the content under the identifier, overwriting any prior value
    /// at that key. A backend that cannot persist reports `WriteFailure`
    /// and leaves the store unchanged.
    fn insert(&mut self, entity: NewPaste) -> (r: Result<(), RepositoryError>)
        requires
            old(self).wf(),
        ensures
            final(self).wf(),
            r is Ok ==> final(self).model() == old(self).model().insert(
                entity.id@,
                entity.content@,
            ),
            r matches Err(e) ==> final(self).model() == old(self).model()
                && e matches RepositoryError::WriteFailure(_),
    ;
}

/// Law: storing content under an identifier makes exactly that content
/// retrievable under it. Together with the contracts of `insert` and
/// `find_one`, this says a stored paste is found again unchanged, for any
/// valid pair.
pub proof fn lemma_insert_then_find(m: Map<Seq<char>, Seq<char>>, id: Seq<char>, content: Seq<char>)
    ensures
        m.insert(id, content).contains_key(id),
        m.insert(id, content)[id] == content,
{
}

/// Law: overwriting is last-write-wins. Two inserts under one identifier
/// leave the store exactly as if only the second had happened, so only the
/// second content stays retrievable.
pub proof fn lemma_overwrite(
    m: Map<Seq<char>, Seq<char>>,
    id: Seq<char>,
    first: Seq<char>,
    second: Seq<char>,
)
    ensures
        m.insert(id, first).insert(id, second) == m.insert(id, second),
        m.insert(id, first).insert(id, second)[id] == second,
{
    assert(m.insert(id, first).insert(id, second) =~= m.insert(id, second));
}

/// Law: an identifier that was never inserted stays absent. A fresh store
/// holds nothing, and inserting under one key leaves every other key as it
/// was, so `find_one` on such an identifier fails with `NotFound`.
pub proof fn lemma_never_inserted(
    m: Map<Seq<char>, Seq<char>>,
    id: Seq<char>,
    other: Seq<char>,
    content: Seq<char>,
)
    requires
        other != id,
    ensures
        !Map::<Seq<char>, Seq<char>>::empty().contains_key(id),
        m.insert(other, content).contains_key(id) == m.contains_key(id),
{
}

} // verus!
