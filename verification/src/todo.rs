//! The domain model: task identifiers, task content, persisted tasks, and
//! the repository interface that owns the persisted entries.

use vstd::prelude::*;

verus! {

/// Identifier of a persisted task. Identifiers are assigned by the
/// repository, start at 1, only grow, and are never reused.
#[derive(PartialEq, Eq, Structural, PartialOrd, Ord, Debug, Copy, Clone, Hash)]
pub struct TodoId(pub u64);

/// Task content handed in for creation; not yet assigned an identifier.
#[derive(Debug)]
pub struct TodoData {
    pub task: String,
}

/// A persisted task: its identifier together with its description.
#[derive(Debug)]
pub struct Todo {
    pub id: TodoId,
    pub task: String,
}

impl PartialEq for Todo {
    fn eq(&self, other: &Todo) -> (r: bool) {
        self.id == other.id && self.task == other.task
    }
}

impl vstd::std_specs::cmp::PartialEqSpecImpl for Todo {
    open spec fn obeys_eq_spec() -> bool {
        true
    }

    open spec fn eq_spec(&self, other: &Todo) -> bool {
        self.id == other.id && self.task@ == other.task@
    }
}

/// Error returned by the repository: the given identifier has no entry.
#[derive(Debug)]
pub enum TodoRepoErr {
    NotFound(TodoId),
}

/// The interface of a `Todo` repository, dealing with persistence.
///
/// A repository is modelled by the map `store()` from assigned identifiers
/// to task descriptions, together with `last_id()`, the identifier most
/// recently assigned (0 when none has been). `wf()` is the repository's
/// internal well-formedness; `new`-style constructors of implementations
/// establish it and every operation preserves it.
pub trait TodoRepo: Sized {
    /// The persisted entries: each assigned identifier maps to the stored
    /// task description.
    spec fn store(&self) -> Map<u64, Seq<char>>;

    /// The identifier most recently assigned, or 0 when none has been.
    /// Every key of `store()` lies in `1 ..= last_id()`.
    spec fn last_id(&self) -> u64;

    /// Internal well-formedness of the implementation.
    spec fn wf(&self) -> bool;

    /// Persists `todo_data` under the next identifier, `last_id() + 1`,
    /// and returns the full task. The identifier was never in use before.
    fn create(&mut self, todo_data: &TodoData) -> (todo: Todo)
        requires
            old(self).wf(),
            old(self).last_id() < u64::MAX,
        ensures
            final(self).wf(),
            todo.id.0 == old(self).last_id() + 1,
            todo.task@ == todo_data.task@,
            !old(self).store().contains_key(todo.id.0),
            final(self).last_id() == old(self).last_id() + 1,
            final(self).store() == old(self).store().insert(todo.id.0, todo_data.task@),
    ;

    /// Returns the task stored under `todo_id`, or `NotFound` carrying that
    /// identifier when there is none.
    fn get(&self, todo_id: &TodoId) -> (result: Result<Todo, TodoRepoErr>)
        requires
            self.wf(),
        ensures
            match result {
                Ok(todo) => self.store().contains_key(todo_id.0) && todo.id.0 == todo_id.0
                    && todo.task@ == self.store()[todo_id.0],
                Err(TodoRepoErr::NotFound(missing)) => !self.store().contains_key(todo_id.0)
                    && missing.0 == todo_id.0,
            },
    ;

    /// Returns every stored task, ordered ascending by identifier.
    fn list(&self) -> (todos: Vec<Todo>)
        requires
            self.wf(),
        ensures
            forall|i: int|
                0 <= i < todos@.len() ==> self.store().contains_key(#[trigger] todos@[i].id.0)
                    && todos@[i].task@ == self.store()[todos@[i].id.0],
            forall|i: int, j: int|
                0 <= i < j < todos@.len() ==> todos@[i].id.0 < todos@[j].id.0,
            forall|id: u64|
                self.store().contains_key(id) ==> exists|i: int|
                    0 <= i < todos@.len() && #[trigger] todos@[i].id.0 == id,
    ;

    /// Removes the entry under `todo_id` if present; `NotFound` carrying
    /// that identifier otherwise. Assigned identifiers are not reused, so
    /// `last_id()` is unchanged.
    fn delete(&mut self, todo_id: &TodoId) -> (result: Result<(), TodoRepoErr>)
        requires
            old(self).wf(),
        ensures
            final(self).wf(),
            final(self).last_id() == old(self).last_id(),
            match result {
                Ok(()) => old(self).store().contains_key(todo_id.0)
                    && final(self).store() == old(self).store().remove(todo_id.0),
                Err(TodoRepoErr::NotFound(missing)) => !old(self).store().contains_key(todo_id.0)
                    && missing.0 == todo_id.0
                    && final(self).store() == old(self).store(),
            },
    ;

    /// Replaces the description stored under `todo.id` with `todo.task` if
    /// an entry exists; `NotFound` carrying that identifier otherwise.
    /// Never creates an entry.
    fn update(&mut self, todo: &Todo) -> (result: Result<(), TodoRepoErr>)
        requires
            old(self).wf(),
        ensures
            final(self).wf(),
            final(self).last_id() == old(self).last_id(),
            match result {
                Ok(()) => old(self).store().contains_key(todo.id.0)
                    && final(self).store() == old(self).store().insert(todo.id.0, todo.task@),
                Err(TodoRepoErr::NotFound(missing)) => !old(self).store().contains_key(todo.id.0)
                    && missing.0 == todo.id.0
                    && final(self).store() == old(self).store(),
            },
    ;
}

} // verus!
