//! The domain service: validates task content before any mutating
//! repository call, and maps repository errors into typed lookup errors;
//! otherwise pure delegation.

use vstd::prelude::*;

use crate::todo::{Todo, TodoData, TodoId, TodoRepo, TodoRepoErr};

verus! {

/// Error of a mutating call whose content failed validation: the task
/// description was the empty string. Whitespace-only content is accepted;
/// only exact emptiness is invalid.
#[derive(Debug)]
pub enum TodoServiceDataErr {
    InvalidData { task: String },
}

/// Error of a lookup: the given identifier has no entry.
#[derive(Debug)]
pub enum TodoServiceLookupErr {
    NotFound(TodoId),
}

/// Error of an update, keeping apart content that failed validation and an
/// identifier that has no entry.
#[derive(Debug)]
pub enum TodoServiceUpdateErr {
    LookupErr(TodoServiceLookupErr),
    DataErr(TodoServiceDataErr),
}

/// The interface of the domain service over a repository. The service is
/// modelled by the same `store()` and `last_id()` as the repository it
/// guards; `wf()` is its well-formedness.
pub trait TodoService: Sized {
    /// The persisted entries of the underlying repository.
    spec fn store(&self) -> Map<u64, Seq<char>>;

    /// The identifier the underlying repository most recently assigned.
    spec fn last_id(&self) -> u64;

    /// Well-formedness of the underlying repository.
    spec fn wf(&self) -> bool;

    /// Persists `todo_data` under a fresh identifier when its description
    /// is non-empty; fails with `InvalidData`, leaving the store untouched,
    /// exactly when the description is empty.
    fn create(&mut self, todo_data: &TodoData) -> (result: Result<Todo, TodoServiceDataErr>)
        requires
            old(self).wf(),
            old(self).last_id() < u64::MAX,
        ensures
            final(self).wf(),
            match result {
                Ok(todo) => todo_data.task@.len() > 0 && todo.id.0 == old(self).last_id() + 1
                    && todo.task@ == todo_data.task@
                    && !old(self).store().contains_key(todo.id.0)
                    && final(self).last_id() == old(self).last_id() + 1
                    && final(self).store() == old(self).store().insert(todo.id.0, todo_data.task@),
                Err(TodoServiceDataErr::InvalidData { task }) => todo_data.task@.len() == 0
                    && task@ == todo_data.task@
                    && final(self).last_id() == old(self).last_id()
                    && final(self).store() == old(self).store(),
            },
    ;

    /// Returns the task stored under `todo_id`, or `NotFound` carrying that
    /// identifier when there is none.
    fn get(&self, todo_id: &TodoId) -> (result: Result<Todo, TodoServiceLookupErr>)
        requires
            self.wf(),
        ensures
            match result {
                Ok(todo) => self.store().contains_key(todo_id.0) && todo.id.0 == todo_id.0
                    && todo.task@ == self.store()[todo_id.0],
                Err(TodoServiceLookupErr::NotFound(missing)) => !self.store().contains_key(
                    todo_id.0,
                ) && missing.0 == todo_id.0,
            },
    ;

    /// Returns every stored task, ordered ascending by identifier.
    fn list(&self) -> (todos: Vec<Todo>)
        requires
            self.wf(),
        ensures
            forall|i: int|
                0 <= i < todos@.len() ==> self.store().contains_key(#[trigger] todos@[i].id.0)
                    && todos@[i].task@ == self.store()[todos@[i].id.0],
            forall|i: int, j: int|
                0 <= i < j < todos@.len() ==> todos@[i].id.0 < todos@[j].id.0,
            forall|id: u64|
                self.store().contains_key(id) ==> exists|i: int|
                    0 <= i < todos@.len() && #[trigger] todos@[i].id.0 == id,
    ;

    /// Removes the entry under `todo_id` if present; `NotFound` carrying
    /// that identifier otherwise.
    fn delete(&mut self, todo_id: &TodoId) -> (result: Result<(), TodoServiceLookupErr>)
        requires
            old(self).wf(),
        ensures
            final(self).wf(),
            final(self).last_id() == old(self).last_id(),
            match result {
                Ok(()) => old(self).store().contains_key(todo_id.0)
                    && final(self).store() == old(self).store().remove(todo_id.0),
                Err(TodoServiceLookupErr::NotFound(missing)) => !old(self).store().contains_key(
                    todo_id.0,
                ) && missing.0 == todo_id.0
                    && final(self).store() == old(self).store(),
            },
    ;

    /// Replaces the description stored under `todo.id` when the new
    /// description is non-empty and the entry exists; the two failures are
    /// kept apart, and a failed call leaves the store untouched.
    fn update(&mut self, todo: &Todo) -> (result: Result<(), TodoServiceUpdateErr>)
        requires
            old(self).wf(),
        ensures
            final(self).wf(),
            final(self).last_id() == old(self).last_id(),
            match result {
                Ok(()) => todo.task@.len() > 0 && old(self).store().contains_key(todo.id.0)
                    && final(self).store() == old(self).store().insert(todo.id.0, todo.task@),
                Err(TodoServiceUpdateErr::DataErr(TodoServiceDataErr::InvalidData { task })) =>
                    todo.task@.len() == 0 && task@ == todo.task@
                    && final(self).store() == old(self).store(),
                Err(
                    TodoServiceUpdateErr::LookupErr(TodoServiceLookupErr::NotFound(missing)),
                ) => todo.task@.len() > 0 && !old(self).store().contains_key(todo.id.0)
                    && missing.0 == todo.id.0
                    && final(self).store() == old(self).store(),
            },
    ;
}

/// The domain service over a repository `A`.
pub struct TodoServiceImpl<A: TodoRepo> {
    todo_repo: A,
}

/// Wraps the given repository in a service. The service is modelled by the
/// repository's own store and counter.
pub fn new<A: TodoRepo>(repo: A) -> (service: TodoServiceImpl<A>)
    ensures
        service.wf() <==> repo.wf(),
        service.store() == repo.store(),
        service.last_id() == repo.last_id(),
{
    TodoServiceImpl { todo_repo: repo }
}

impl<A: TodoRepo> TodoServiceImpl<A> {
    /// Validates task content: invalid exactly when the description is the
    /// empty string. Whitespace-only content passes; only exact emptiness
    /// is rejected.
    pub fn validate_task(task: &str) -> (result: Result<(), TodoServiceDataErr>)
        ensures
            match result {
                Ok(()) => task@.len() > 0,
                Err(TodoServiceDataErr::InvalidData { task: reported }) => task@.len() == 0
                    && reported@ == task@,
            },
    {
        if task.is_empty() {
            Err(TodoServiceDataErr::InvalidData { task: task.to_owned() })
        } else {
            Ok(())
        }
    }
}

impl<A: TodoRepo> TodoService for TodoServiceImpl<A> {
    closed spec fn store(&self) -> Map<u64, Seq<char>> {
        self.todo_repo.store()
    }

    closed spec fn last_id(&self) -> u64 {
        self.todo_repo.last_id()
    }

    closed spec fn wf(&self) -> bool {
        self.todo_repo.wf()
    }

    fn create(&mut self, todo_data: &TodoData) -> (result: Result<Todo, TodoServiceDataErr>) {
        match Self::validate_task(todo_data.task.as_str()) {
            Err(e) => Err(e),
            Ok(()) => Ok(self.todo_repo.create(todo_data)),
        }
    }

    fn get(&self, todo_id: &TodoId) -> (result: Result<Todo, TodoServiceLookupErr>) {
        match self.todo_repo.get(todo_id) {
            Ok(todo) => Ok(todo),
            Err(e) => Err(TodoServiceLookupErr::from(e)),
        }
    }

    fn list(&self) -> (todos: Vec<Todo>) {
        self.todo_repo.list()
    }

    fn delete(&mut self, todo_id: &TodoId) -> (result: Result<(), TodoServiceLookupErr>) {
        match self.todo_repo.delete(todo_id) {
            Ok(()) => Ok(()),
            Err(e) => Err(TodoServiceLookupErr::from(e)),
        }
    }

    fn update(&mut self, todo: &Todo) -> (result: Result<(), TodoServiceUpdateErr>) {
        match Self::validate_task(todo.task.as_str()) {
            Err(e) => Err(TodoServiceUpdateErr::from(e)),
            Ok(()) => match self.todo_repo.update(todo) {
                Ok(()) => Ok(()),
                Err(e) => Err(TodoServiceUpdateErr::from(e)),
            },
        }
    }
}

impl From<TodoRepoErr> for TodoServiceLookupErr {
    /// Maps the repository's "no such entry" into the service's lookup
    /// error, keeping the identifier.
    fn from(repo_err: TodoRepoErr) -> (r: Self) {
        match repo_err {
            TodoRepoErr::NotFound(id) => TodoServiceLookupErr::NotFound(id),
        }
    }
}

impl vstd::std_specs::convert::FromSpecImpl<TodoRepoErr> for TodoServiceLookupErr {
    open spec fn obeys_from_spec() -> bool {
        true
    }

    open spec fn from_spec(repo_err: TodoRepoErr) -> Self {
        match repo_err {
            TodoRepoErr::NotFound(id) => TodoServiceLookupErr::NotFound(id),
        }
    }
}

impl From<TodoServiceDataErr> for TodoServiceUpdateErr {
    /// Wraps a validation failure as the update error's data branch.
    fn from(err: TodoServiceDataErr) -> (r: Self) {
        TodoServiceUpdateErr::DataErr(err)
    }
}

impl vstd::std_specs::convert::FromSpecImpl<TodoServiceDataErr> for TodoServiceUpdateErr {
    open spec fn obeys_from_spec() -> bool {
        true
    }

    open spec fn from_spec(err: TodoServiceDataErr) -> Self {
        TodoServiceUpdateErr::DataErr(err)
    }
}

impl From<TodoRepoErr> for TodoServiceUpdateErr {
    /// Wraps the repository's "no such entry" as the update error's lookup
    /// branch, keeping the identifier.
    fn from(repo_err: TodoRepoErr) -> (r: Self) {
        match repo_err {
            TodoRepoErr::NotFound(id) => TodoServiceUpdateErr::LookupErr(
                TodoServiceLookupErr::NotFound(id),
            ),
        }
    }
}

impl vstd::std_specs::convert::FromSpecImpl<TodoRepoErr> for TodoServiceUpdateErr {
    open spec fn obeys_from_spec() -> bool {
        true
    }

    open spec fn from_spec(repo_err: TodoRepoErr) -> Self {
        match repo_err {
            TodoRepoErr::NotFound(id) => TodoServiceUpdateErr::LookupErr(
                TodoServiceLookupErr::NotFound(id),
            ),
        }
    }
}

} // verus!
