//! The in-memory backend: pastes held in a vector of (identifier, content)
//! pairs with pairwise-distinct keys. Data lives only as long as the
//! process; losing it on restart is this backend's documented behavior.

use crate::dao::repository::{Repository, RepositoryError};
use crate::domain::{NewPaste, PasteContent, PasteId};
use vstd::prelude::*;

verus! {

/// The mapping a sequence of (identifier, content) pairs represents: each
/// pair binds its identifier's text to its content's text, later pairs
/// overriding earlier ones.
pub open spec fn entries_model(es: Seq<(PasteId, PasteContent)>) -> Map<Seq<char>, Seq<char>>
    decreases es.len(),
{
    if es.len() == 0 {
        Map::empty()
    } else {
        entries_model(es.drop_last()).insert(es.last().0@, es.last().1@)
    }
}

/// No two pairs bind the same identifier.
pub open spec fn unique_keys(es: Seq<(PasteId, PasteContent)>) -> bool {
    forall|i: int, j: int|
        0 <= i < j < es.len() ==> (#[trigger] es[i]).0@ != (#[trigger] es[j]).0@
}

/// A key is in the model exactly when some pair binds it.
proof fn lemma_model_contains(es: Seq<(PasteId, PasteContent)>, k: Seq<char>)
    ensures
        entries_model(es).contains_key(k) <==> exists|i: int|
            0 <= i < es.len() && (#[trigger] es[i]).0@ == k,
    decreases es.len(),
{
    if es.len() > 0 {
        lemma_model_contains(es.drop_last(), k);
        if es.last().0@ == k {
            assert((es[es.len() - 1]).0@ == k);
        } else {
            if exists|i: int| 0 <= i < es.len() && (#[trigger] es[i]).0@ == k {
                let i = choose|i: int| 0 <= i < es.len() && (#[trigger] es[i]).0@ == k;
                assert(es.drop_last()[i] == es[i]);
            }
            if exists|i: int| 0 <= i < es.drop_last().len() && (#[trigger] es.drop_last()[i]).0@
                == k {
                let i = choose|i: int|
                    0 <= i < es.drop_last().len() && (#[trigger] es.drop_last()[i]).0@ == k;
                assert(es[i] == es.drop_last()[i]);
            }
        }
    }
}

/// Dropping the last pair keeps the remaining keys pairwise distinct.
proof fn lemma_unique_drop_last(es: Seq<(PasteId, PasteContent)>)
    requires
        unique_keys(es),
        es.len() > 0,
    ensures
        unique_keys(es.drop_last()),
{
    assert forall|i: int, j: int|
        0 <= i < j < es.drop_last().len() implies (#[trigger] es.drop_last()[i]).0@ != (
    #[trigger] es.drop_last()[j]).0@ by {
        assert(es.drop_last()[i] == es[i]);
        assert(es.drop_last()[j] == es[j]);
    }
}

/// Appending a pair whose key no existing pair binds keeps the keys
/// pairwise distinct.
proof fn lemma_unique_push(es: Seq<(PasteId, PasteContent)>, p: (PasteId, PasteContent))
    requires
        unique_keys(es),
        forall|j: int| 0 <= j < es.len() ==> (#[trigger] es[j]).0@ != p.0@,
    ensures
        unique_keys(es.push(p)),
{
    assert forall|i: int, j: int|
        0 <= i < j < es.push(p).len() implies (#[trigger] es.push(p)[i]).0@ != (
    #[trigger] es.push(p)[j]).0@ by {
        assert(es.push(p)[i] == es[i]);
        if j < es.len() {
            assert(es.push(p)[j] == es[j]);
        } else {
            assert(es.push(p)[j] == p);
        }
    }
}

/// With pairwise-distinct keys, the pair at any index gives the model's
/// value at its key.
proof fn lemma_model_lookup(es: Seq<(PasteId, PasteContent)>, i: int)
    requires
        unique_keys(es),
        0 <= i < es.len(),
    ensures
        entries_model(es).contains_key((es[i]).0@),
        entries_model(es)[(es[i]).0@] == (es[i]).1@,
    decreases es.len(),
{
    if i == es.len() - 1 {
    } else {
        lemma_unique_drop_last(es);
        assert(es.drop_last()[i] == es[i]);
        lemma_model_lookup(es.drop_last(), i);
        assert(es.last().0@ != (es[i]).0@);
    }
}

/// Appending a pair inserts its binding into the model.
proof fn lemma_model_push(es: Seq<(PasteId, PasteContent)>, p: (PasteId, PasteContent))
    ensures
        entries_model(es.push(p)) == entries_model(es).insert(p.0@, p.1@),
{
    assert(es.push(p).drop_last() =~= es);
    assert(es.push(p).last() == p);
}

/// Removing the pair at an index removes exactly its key from the model,
/// keeps the remaining keys pairwise distinct, and leaves no pair binding
/// the removed key.
proof fn lemma_model_remove(es: Seq<(PasteId, PasteContent)>, i: int)
    requires
        unique_keys(es),
        0 <= i < es.len(),
    ensures
        entries_model(es.remove(i)) == entries_model(es).remove((es[i]).0@),
        unique_keys(es.remove(i)),
        forall|j: int|
            0 <= j < es.remove(i).len() ==> (#[trigger] es.remove(i)[j]).0@ != (es[i]).0@,
    decreases es.len(),
{
    let k = (es[i]).0@;
    es.remove_ensures(i);
    assert forall|j: int|
        0 <= j < es.remove(i).len() implies (#[trigger] es.remove(i)[j]).0@ != k by {
        if j < i {
            assert(es.remove(i)[j] == es[j]);
        } else {
            assert(es.remove(i)[j] == es[j + 1]);
        }
    }
    assert forall|a: int, b: int|
        0 <= a < b < es.remove(i).len() implies (#[trigger] es.remove(i)[a]).0@ != (
    #[trigger] es.remove(i)[b]).0@ by {
        let a0 = if a < i { a } else { a + 1 };
        let b0 = if b < i { b } else { b + 1 };
        assert(es.remove(i)[a] == es[a0]);
        assert(es.remove(i)[b] == es[b0]);
    }
    if i == es.len() - 1 {
        assert(es.remove(i) =~= es.drop_last());
        lemma_model_contains(es.drop_last(), k);
        assert forall|j: int|
            0 <= j < es.drop_last().len() implies (#[trigger] es.drop_last()[j]).0@ != k by {
            assert(es.drop_last()[j] == es[j]);
        }
        assert(!entries_model(es.drop_last()).contains_key(k));
        assert(entries_model(es).remove(k) =~= entries_model(es.drop_last()));
    } else {
        lemma_unique_drop_last(es);
        lemma_model_remove(es.drop_last(), i);
        assert(es.drop_last()[i] == es[i]);
        assert(es.remove(i).drop_last() =~= es.drop_last().remove(i));
        assert(es.remove(i).last() == es.last());
        assert(es.last().0@ != k);
        assert(entries_model(es.remove(i)) == entries_model(es.drop_last()).remove(k).insert(
            es.last().0@,
            es.last().1@,
        ));
        assert(entries_model(es.drop_last()).remove(k).insert(es.last().0@, es.last().1@)
            =~= entries_model(es.drop_last()).insert(es.last().0@, es.last().1@).remove(k));
    }
}

/// A paste store backed by process memory alone.
pub struct InMemoryRepository {
    data: Vec<(PasteId, PasteContent)>,
}

impl Repository for InMemoryRepository {
    closed spec fn wf(&self) -> bool {
        unique_keys(self.data@)
    }

    closed spec fn model(&self) -> Map<Seq<char>, Seq<char>> {
        entries_model(self.data@)
    }

    fn new() -> (r: Self) {
        InMemoryRepository { data: Vec::new() }
    }

    fn find_one(&self, id: PasteId) -> (r: Result<PasteContent, RepositoryError>) {
        let n = self.data.len();
        let mut i: usize = 0;
        while i < n
            invariant
                i <= n,
                n == self.data@.len(),
                unique_keys(self.data@),
                forall|j: int| 0 <= j < i ==> (#[trigger] self.data@[j]).0@ != id@,
            decreases n - i,
        {
            if self.data[i].0 == id {
                proof {
                    lemma_model_lookup(self.data@, i as int);
                }
                return Ok(self.data[i].1.clone());
            }
            i += 1;
        }
        proof {
            lemma_model_contains(self.data@, id@);
        }
        Err(RepositoryError::NotFound(id.as_str().to_owned()))
    }

    fn insert(&mut self, entity: NewPaste) -> (r: Result<(), RepositoryError>)
        ensures
            r is Ok,
    {
        let ghost pre = self.data@;
        let n = self.data.len();
        let mut i: usize = 0;
        let mut found = false;
        let mut at: usize = 0;
        while i < n
            invariant
                i <= n,
                n == self.data@.len(),
                *self == *old(self),
                !found ==> forall|j: int| 0 <= j < i ==> (#[trigger] self.data@[j]).0@
                    != entity.id@,
                found ==> at < n && self.data@[at as int].0@ == entity.id@,
            decreases n - i,
        {
            if !found && self.data[i].0 == entity.id {
                found = true;
                at = i;
            }
            i += 1;
        }
        if found {
            proof {
                lemma_model_remove(pre, at as int);
            }
            let _replaced = self.data.remove(at);
        }
        let ghost trimmed = self.data@;
        proof {
            lemma_model_push(trimmed, (entity.id, entity.content));
            lemma_unique_push(trimmed, (entity.id, entity.content));
            if found {
                assert(entries_model(trimmed).insert(entity.id@, entity.content@)
                    =~= entries_model(pre).insert(entity.id@, entity.content@));
            }
        }
        self.data.push((entity.id, entity.content));
        Ok(())
    }
}

} // verus!
