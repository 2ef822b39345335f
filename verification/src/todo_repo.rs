//! The in-memory repository: sole owner of the persisted entries.
//!
//! Entries are kept in a vector ordered strictly ascending by identifier,
//! beside the counter of the identifier most recently assigned. The counter
//! only grows, so identifiers are never reused, and `list` can hand the
//! entries out in identifier order directly.

use vstd::prelude::*;

use crate::todo::{Todo, TodoData, TodoId, TodoRepo, TodoRepoErr};

verus! {

/// Whether the identifiers in `s` are strictly ascending (which also makes
/// them pairwise distinct).
pub open spec fn ids_ascending(s: Seq<Todo>) -> bool {
    forall|i: int, j: int| 0 <= i < j < s.len() ==> s[i].id.0 < s[j].id.0
}

/// Whether some entry of `s` carries the identifier `id`.
pub open spec fn seq_has_id(s: Seq<Todo>, id: u64) -> bool {
    exists|i: int| 0 <= i < s.len() && s[i].id.0 == id
}

/// The index of the entry of `s` carrying `id`; meaningful only when
/// `seq_has_id(s, id)` holds and the identifiers are distinct.
pub open spec fn seq_idx_of(s: Seq<Todo>, id: u64) -> int {
    choose|i: int| 0 <= i < s.len() && s[i].id.0 == id
}

/// The entries of `s` read as a map from identifier to task description.
pub open spec fn seq_store(s: Seq<Todo>) -> Map<u64, Seq<char>> {
    Map::new(|id: u64| seq_has_id(s, id), |id: u64| s[seq_idx_of(s, id)].task@)
}

/// With strictly ascending identifiers, the index holding a given
/// identifier is unique, so `seq_idx_of` returns exactly it.
proof fn lemma_idx_of(s: Seq<Todo>, i: int)
    requires
        ids_ascending(s),
        0 <= i < s.len(),
    ensures
        seq_has_id(s, s[i].id.0),
        seq_idx_of(s, s[i].id.0) == i,
{
    assert(seq_has_id(s, s[i].id.0));
    let j = seq_idx_of(s, s[i].id.0);
    assert(0 <= j < s.len() && s[j].id.0 == s[i].id.0);
    if j < i {
        assert(s[j].id.0 < s[i].id.0);
    } else if j > i {
        assert(s[i].id.0 < s[j].id.0);
    }
}

/// Appending an entry whose identifier exceeds every present one keeps the
/// identifiers ascending and inserts the entry into the store map.
proof fn lemma_push_store(s: Seq<Todo>, t: Todo)
    requires
        ids_ascending(s),
        forall|i: int| 0 <= i < s.len() ==> s[i].id.0 < t.id.0,
    ensures
        ids_ascending(s.push(t)),
        seq_store(s.push(t)) == seq_store(s).insert(t.id.0, t.task@),
{
    let s2 = s.push(t);
    assert forall|i: int, j: int| 0 <= i < j < s2.len() implies s2[i].id.0 < s2[j].id.0 by {
        if j < s.len() {
            assert(s2[i] == s[i] && s2[j] == s[j]);
        } else {
            assert(s2[i] == s[i] && s2[j] == t);
        }
    }
    assert forall|id: u64| #[trigger] seq_has_id(s2, id) implies seq_store(s2).contains_key(id)
        && (seq_store(s).insert(t.id.0, t.task@).contains_key(id) && seq_store(s2)[id]
        == seq_store(s).insert(t.id.0, t.task@)[id]) by {
        let i = seq_idx_of(s2, id);
        assert(0 <= i < s2.len() && s2[i].id.0 == id);
        lemma_idx_of(s2, i);
        if i < s.len() {
            assert(s2[i] == s[i]);
            lemma_idx_of(s, i);
            assert(seq_store(s)[id] == s[i].task@);
        } else {
            assert(s2[i] == t);
        }
    }
    assert forall|id: u64| seq_store(s).insert(t.id.0, t.task@).contains_key(id) implies
        seq_has_id(s2, id) by {
        if id == t.id.0 {
            assert(s2[s.len() as int].id.0 == id);
        } else {
            let i = seq_idx_of(s, id);
            assert(0 <= i < s.len() && s[i].id.0 == id);
            assert(s2[i].id.0 == id);
        }
    }
    assert(seq_store(s2) =~= seq_store(s).insert(t.id.0, t.task@));
}

/// Removing the entry at index `i` keeps the identifiers ascending and
/// removes exactly its identifier from the store map.
proof fn lemma_remove_store(s: Seq<Todo>, i: int)
    requires
        ids_ascending(s),
        0 <= i < s.len(),
    ensures
        ids_ascending(s.remove(i)),
        seq_store(s.remove(i)) == seq_store(s).remove(s[i].id.0),
{
    let s2 = s.remove(i);
    assert forall|p: int, q: int| 0 <= p < q < s2.len() implies s2[p].id.0 < s2[q].id.0 by {
        let p0: int = if p < i { p } else { p + 1 };
        let q0: int = if q < i { q } else { q + 1 };
        assert(s2[p] == s[p0] && s2[q] == s[q0]);
    }
    assert forall|id: u64| #[trigger] seq_has_id(s2, id) implies
        seq_store(s).remove(s[i].id.0).contains_key(id) && seq_store(s2)[id]
        == seq_store(s).remove(s[i].id.0)[id] by {
        let j = seq_idx_of(s2, id);
        assert(0 <= j < s2.len() && s2[j].id.0 == id);
        lemma_idx_of(s2, j);
        let j0: int = if j < i { j } else { j + 1 };
        assert(s2[j] == s[j0]);
        lemma_idx_of(s, j0);
        assert(seq_store(s)[id] == s[j0].task@);
        lemma_idx_of(s, i);
        assert(id != s[i].id.0);
    }
    assert forall|id: u64| seq_store(s).remove(s[i].id.0).contains_key(id) implies
        seq_has_id(s2, id) by {
        let j0 = seq_idx_of(s, id);
        assert(0 <= j0 < s.len() && s[j0].id.0 == id);
        lemma_idx_of(s, j0);
        lemma_idx_of(s, i);
        assert(j0 != i);
        if j0 < i {
            assert(s2[j0].id.0 == id);
        } else {
            assert(s2[j0 - 1].id.0 == id);
        }
    }
    assert(seq_store(s2) =~= seq_store(s).remove(s[i].id.0));
}

/// Replacing the entry at index `i` by one carrying the same identifier
/// keeps the identifiers ascending and overwrites that identifier's task in
/// the store map.
proof fn lemma_update_store(s: Seq<Todo>, i: int, t: Todo)
    requires
        ids_ascending(s),
        0 <= i < s.len(),
        t.id.0 == s[i].id.0,
    ensures
        ids_ascending(s.update(i, t)),
        seq_store(s.update(i, t)) == seq_store(s).insert(t.id.0, t.task@),
{
    let s2 = s.update(i, t);
    assert(forall|p: int| 0 <= p < s2.len() ==> s2[p].id.0 == s[p].id.0);
    assert forall|id: u64| #[trigger] seq_has_id(s2, id) implies
        seq_store(s).insert(t.id.0, t.task@).contains_key(id) && seq_store(s2)[id]
        == seq_store(s).insert(t.id.0, t.task@)[id] by {
        let j = seq_idx_of(s2, id);
        assert(0 <= j < s2.len() && s2[j].id.0 == id);
        lemma_idx_of(s2, j);
        assert(s[j].id.0 == id);
        lemma_idx_of(s, j);
        assert(seq_store(s)[id] == s[j].task@);
        if id == t.id.0 {
            lemma_idx_of(s2, i);
            assert(j == i);
        } else {
            assert(j != i);
            assert(s2[j] == s[j]);
        }
    }
    assert forall|id: u64| seq_store(s).insert(t.id.0, t.task@).contains_key(id) implies
        seq_has_id(s2, id) by {
        if id == t.id.0 {
            assert(s2[i].id.0 == id);
        } else {
            let j = seq_idx_of(s, id);
            assert(0 <= j < s.len() && s[j].id.0 == id);
            assert(s2[j].id.0 == id);
        }
    }
    assert(seq_store(s2) =~= seq_store(s).insert(t.id.0, t.task@));
}

/// The in-memory repository: the entries, ordered strictly ascending by
/// identifier, beside the identifier most recently assigned.
pub struct InMemTodoRepo {
    last_id: u64,
    storage: Vec<Todo>,
}

/// Creates an empty repository: no entries, no identifier assigned yet.
pub fn new() -> (repo: InMemTodoRepo)
    ensures
        repo.wf(),
        repo.last_id() == 0,
        repo.store() == Map::<u64, Seq<char>>::empty(),
{
    let repo = InMemTodoRepo { last_id: 0, storage: Vec::new() };
    proof {
        assert(repo.store() =~= Map::<u64, Seq<char>>::empty());
    }
    repo
}

/// Identifiers are never reused: every identifier in the store lies in
/// `1 ..= last_id()`, so the identifier the next `create` assigns,
/// `last_id() + 1`, was never issued before, whatever was deleted in
/// between.
pub proof fn lemma_issued_ids_bounded(repo: &InMemTodoRepo)
    requires
        repo.wf(),
    ensures
        forall|id: u64| repo.store().contains_key(id) ==> 1 <= id <= repo.last_id(),
{
    assert forall|id: u64| repo.store().contains_key(id) implies 1 <= id <= repo.last_id() by {
        let i = seq_idx_of(repo.storage@, id);
        assert(0 <= i < repo.storage@.len() && repo.storage@[i].id.0 == id);
    }
}

impl TodoRepo for InMemTodoRepo {
    closed spec fn store(&self) -> Map<u64, Seq<char>> {
        seq_store(self.storage@)
    }

    closed spec fn last_id(&self) -> u64 {
        self.last_id
    }

    closed spec fn wf(&self) -> bool {
        &&& ids_ascending(self.storage@)
        &&& forall|i: int|
            0 <= i < self.storage@.len() ==> 1 <= #[trigger] self.storage@[i].id.0 <= self.last_id
    }

    fn create(&mut self, todo_data: &TodoData) -> (todo: Todo) {
        let next_id = self.last_id + 1;
        let id = TodoId(next_id);
        self.last_id = next_id;
        let stored = Todo { id, task: todo_data.task.clone() };
        proof {
            lemma_push_store(self.storage@, stored);
            if seq_has_id(self.storage@, next_id) {
                let i = seq_idx_of(self.storage@, next_id);
                assert(0 <= i < self.storage@.len() && self.storage@[i].id.0 == next_id);
            }
        }
        self.storage.push(stored);
        Todo { id, task: todo_data.task.clone() }
    }

    fn get(&self, todo_id: &TodoId) -> (result: Result<Todo, TodoRepoErr>) {
        match self.index_of(todo_id.0) {
            Some(i) => {
                proof {
                    lemma_idx_of(self.storage@, i as int);
                }
                Ok(Todo { id: *todo_id, task: self.storage[i].task.clone() })
            },
            None => Err(TodoRepoErr::NotFound(*todo_id)),
        }
    }

    #[verifier::loop_isolation(false)]
    fn list(&self) -> (todos: Vec<Todo>) {
        let mut todos: Vec<Todo> = Vec::new();
        let mut i: usize = 0;
        while i < self.storage.len()
            invariant
                i <= self.storage@.len(),
                todos@.len() == i,
                forall|k: int|
                    0 <= k < i ==> #[trigger] todos@[k].id.0 == self.storage@[k].id.0
                        && todos@[k].task@ == self.storage@[k].task@,
            decreases self.storage@.len() - i,
        {
            let entry = &self.storage[i];
            todos.push(Todo { id: entry.id, task: entry.task.clone() });
            i += 1;
        }
        proof {
            assert forall|k: int| 0 <= k < todos@.len() implies
                self.store().contains_key(#[trigger] todos@[k].id.0) && todos@[k].task@
                == self.store()[todos@[k].id.0] by {
                lemma_idx_of(self.storage@, k);
            }
            assert forall|p: int, q: int| 0 <= p < q < todos@.len() implies
                todos@[p].id.0 < todos@[q].id.0 by {
                assert(todos@[p].id.0 == self.storage@[p].id.0);
                assert(todos@[q].id.0 == self.storage@[q].id.0);
            }
            assert forall|id: u64| self.store().contains_key(id) implies exists|k: int|
                0 <= k < todos@.len() && #[trigger] todos@[k].id.0 == id by {
                let w = seq_idx_of(self.storage@, id);
                assert(0 <= w < self.storage@.len() && self.storage@[w].id.0 == id);
                assert(todos@[w].id.0 == id);
            }
        }
        todos
    }

    fn delete(&mut self, todo_id: &TodoId) -> (result: Result<(), TodoRepoErr>) {
        match self.index_of(todo_id.0) {
            Some(i) => {
                proof {
                    lemma_idx_of(self.storage@, i as int);
                    lemma_remove_store(self.storage@, i as int);
                }
                self.storage.remove(i);
                Ok(())
            },
            None => Err(TodoRepoErr::NotFound(*todo_id)),
        }
    }

    fn update(&mut self, todo: &Todo) -> (result: Result<(), TodoRepoErr>) {
        match self.index_of(todo.id.0) {
            Some(i) => {
                let replacement = Todo { id: TodoId(todo.id.0), task: todo.task.clone() };
                proof {
                    lemma_idx_of(self.storage@, i as int);
                    lemma_update_store(self.storage@, i as int, replacement);
                    assert(self.storage@.remove(i as int).insert(i as int, replacement)
                        =~= self.storage@.update(i as int, replacement));
                }
                self.storage.remove(i);
                self.storage.insert(i, replacement);
                Ok(())
            },
            None => Err(TodoRepoErr::NotFound(TodoId(todo.id.0))),
        }
    }
}

impl InMemTodoRepo {
    /// The index of the entry carrying `id`, or `None` when there is none.
    #[verifier::loop_isolation(false)]
    fn index_of(&self, id: u64) -> (r: Option<usize>)
        requires
            self.wf(),
        ensures
            match r {
                Some(i) => (i as int) < self.storage@.len() && self.storage@[i as int].id.0 == id,
                None => !seq_has_id(self.storage@, id),
            },
    {
        let mut i: usize = 0;
        while i < self.storage.len()
            invariant
                i <= self.storage@.len(),
                forall|k: int| 0 <= k < i ==> self.storage@[k].id.0 != id,
            decreases self.storage@.len() - i,
        {
            if self.storage[i].id.0 == id {
                return Some(i);
            }
            i += 1;
        }
        None
    }
}

} // verus!
