//! The controller: adapts the domain service to the transport-facing model
//! types, and translates the service's error variants into the
//! controller-facing vocabulary. It owns no state of its own.

use vstd::prelude::*;

use crate::models::todo as api_models;
use crate::todo as domain_models;
use crate::todo_service::{
    TodoService, TodoServiceDataErr, TodoServiceLookupErr, TodoServiceUpdateErr,
};

verus! {

/// Controller-facing error of a mutating call whose content failed
/// validation.
#[derive(Debug)]
pub enum TodoControllerDataErr {
    InvalidData { task: String },
}

/// Controller-facing error of a lookup: the given identifier has no entry.
#[derive(Debug)]
pub enum TodoControllerLookupErr {
    NotFound(api_models::TodoId),
}

/// Controller-facing error of an update, keeping apart content that failed
/// validation and an identifier that has no entry.
#[derive(Debug)]
pub enum TodoControllerUpdateErr {
    LookupErr(TodoControllerLookupErr),
    DataErr(TodoControllerDataErr),
}

/// The interface of the controller over a domain service. The controller
/// is modelled by the same `store()` and `last_id()` as the service it
/// adapts; `wf()` is its well-formedness.
pub trait TodoController: Sized {
    /// The persisted entries of the underlying store.
    spec fn store(&self) -> Map<u64, Seq<char>>;

    /// The identifier most recently assigned by the underlying store.
    spec fn last_id(&self) -> u64;

    /// Well-formedness of the underlying store.
    spec fn wf(&self) -> bool;

    /// Persists `todo_data` under a fresh identifier when its description
    /// is non-empty; fails with `InvalidData`, leaving the store untouched,
    /// exactly when the description is empty.
    fn create(&mut self, todo_data: &api_models::TodoData) -> (result: Result<
        api_models::Todo,
        TodoControllerDataErr,
    >)
        requires
            old(self).wf(),
            old(self).last_id() < u64::MAX,
        ensures
            final(self).wf(),
            match result {
                Ok(todo) => todo_data.task@.len() > 0 && todo.id.0 == old(self).last_id() + 1
                    && todo.task@ == todo_data.task@
                    && !old(self).store().contains_key(todo.id.0)
                    && final(self).last_id() == old(self).last_id() + 1
                    && final(self).store() == old(self).store().insert(todo.id.0, todo_data.task@),
                Err(TodoControllerDataErr::InvalidData { task }) => todo_data.task@.len() == 0
                    && task@ == todo_data.task@
                    && final(self).last_id() == old(self).last_id()
                    && final(self).store() == old(self).store(),
            },
    ;

    /// Returns the task stored under `todo_id`, or `NotFound` carrying that
    /// identifier when there is none.
    fn get(&self, todo_id: &api_models::TodoId) -> (result: Result<
        api_models::Todo,
        TodoControllerLookupErr,
    >)
        requires
            self.wf(),
        ensures
            match result {
                Ok(todo) => self.store().contains_key(todo_id.0) && todo.id.0 == todo_id.0
                    && todo.task@ == self.store()[todo_id.0],
                Err(TodoControllerLookupErr::NotFound(missing)) => !self.store().contains_key(
                    todo_id.0,
                ) && missing.0 == todo_id.0,
            },
    ;

    /// Returns every stored task, ordered ascending by identifier.
    fn list(&self) -> (todos: Vec<api_models::Todo>)
        requires
            self.wf(),
        ensures
            forall|i: int|
                0 <= i < todos@.len() ==> self.store().contains_key(#[trigger] todos@[i].id.0)
                    && todos@[i].task@ == self.store()[todos@[i].id.0],
            forall|i: int, j: int|
                0 <= i < j < todos@.len() ==> todos@[i].id.0 < todos@[j].id.0,
            forall|id: u64|
                self.store().contains_key(id) ==> exists|i: int|
                    0 <= i < todos@.len() && #[trigger] todos@[i].id.0 == id,
    ;

    /// Replaces the description stored under `todo.id` when the new
    /// description is non-empty and the entry exists; which of the two
    /// failures occurred stays visible, and a failed call leaves the store
    /// untouched.
    fn update(&mut self, todo: &api_models::Todo) -> (result: Result<(), TodoControllerUpdateErr>)
        requires
            old(self).wf(),
        ensures
            final(self).wf(),
            final(self).last_id() == old(self).last_id(),
            match result {
                Ok(()) => todo.task@.len() > 0 && old(self).store().contains_key(todo.id.0)
                    && final(self).store() == old(self).store().insert(todo.id.0, todo.task@),
                Err(TodoControllerUpdateErr::DataErr(TodoControllerDataErr::InvalidData { task }))
                    => todo.task@.len() == 0 && task@ == todo.task@
                    && final(self).store() == old(self).store(),
                Err(
                    TodoControllerUpdateErr::LookupErr(TodoControllerLookupErr::NotFound(missing)),
                ) => todo.task@.len() > 0 && !old(self).store().contains_key(todo.id.0)
                    && missing.0 == todo.id.0
                    && final(self).store() == old(self).store(),
            },
    ;

    /// Removes the entry under `todo_id` if present; `NotFound` carrying
    /// that identifier otherwise.
    fn delete(&mut self, todo_id: &api_models::TodoId) -> (result: Result<
        (),
        TodoControllerLookupErr,
    >)
        requires
            old(self).wf(),
        ensures
            final(self).wf(),
            final(self).last_id() == old(self).last_id(),
            match result {
                Ok(()) => old(self).store().contains_key(todo_id.0)
                    && final(self).store() == old(self).store().remove(todo_id.0),
                Err(TodoControllerLookupErr::NotFound(missing)) => !old(self).store().contains_key(
                    todo_id.0,
                ) && missing.0 == todo_id.0
                    && final(self).store() == old(self).store(),
            },
    ;
}

/// The controller over a domain service `A`.
pub struct TodoControllerImpl<A: TodoService> {
    todo_service: A,
}

/// Wraps the given service in a controller. The controller is modelled by
/// the service's own store and counter.
pub fn new<A: TodoService>(todo_service: A) -> (controller: TodoControllerImpl<A>)
    ensures
        controller.wf() <==> todo_service.wf(),
        controller.store() == todo_service.store(),
        controller.last_id() == todo_service.last_id(),
{
    TodoControllerImpl { todo_service }
}

impl<A: TodoService> TodoController for TodoControllerImpl<A> {
    closed spec fn store(&self) -> Map<u64, Seq<char>> {
        self.todo_service.store()
    }

    closed spec fn last_id(&self) -> u64 {
        self.todo_service.last_id()
    }

    closed spec fn wf(&self) -> bool {
        self.todo_service.wf()
    }

    fn create(&mut self, todo_data: &api_models::TodoData) -> (result: Result<
        api_models::Todo,
        TodoControllerDataErr,
    >) {
        let as_domain_data = domain_models::TodoData::from(todo_data);
        match self.todo_service.create(&as_domain_data) {
            Ok(domain_todo) => Ok(api_models::Todo::from(domain_todo)),
            Err(e) => Err(TodoControllerDataErr::from(e)),
        }
    }

    fn get(&self, todo_id: &api_models::TodoId) -> (result: Result<
        api_models::Todo,
        TodoControllerLookupErr,
    >) {
        let domain_id = domain_models::TodoId::from(todo_id);
        match self.todo_service.get(&domain_id) {
            Ok(domain_todo) => Ok(api_models::Todo::from(domain_todo)),
            Err(e) => Err(TodoControllerLookupErr::from(e)),
        }
    }

    #[verifier::loop_isolation(false)]
    fn list(&self) -> (todos: Vec<api_models::Todo>) {
        let domain_todos = self.todo_service.list();
        let mut todos: Vec<api_models::Todo> = Vec::new();
        let mut i: usize = 0;
        while i < domain_todos.len()
            invariant
                i <= domain_todos@.len(),
                todos@.len() == i,
                forall|k: int|
                    0 <= k < i ==> #[trigger] todos@[k].id.0 == domain_todos@[k].id.0
                        && todos@[k].task@ == domain_todos@[k].task@,
            decreases domain_todos@.len() - i,
        {
            let entry = &domain_todos[i];
            let converted = api_models::Todo {
                id: api_models::TodoId(entry.id.0),
                task: entry.task.clone(),
            };
            todos.push(converted);
            proof {
                assert forall|k: int|
                    0 <= k < i + 1 implies #[trigger] todos@[k].id.0 == domain_todos@[k].id.0
                        && todos@[k].task@ == domain_todos@[k].task@ by {
                    if k < i {
                        assert(todos@[k].id.0 == domain_todos@[k].id.0);
                    }
                }
            }
            i += 1;
        }
        proof {
            assert forall|k: int| 0 <= k < todos@.len() implies
                self.store().contains_key(#[trigger] todos@[k].id.0) && todos@[k].task@
                == self.store()[todos@[k].id.0] by {
                assert(domain_todos@[k].id.0 == todos@[k].id.0);
            }
            assert forall|p: int, q: int| 0 <= p < q < todos@.len() implies
                todos@[p].id.0 < todos@[q].id.0 by {
                assert(todos@[p].id.0 == domain_todos@[p].id.0);
                assert(todos@[q].id.0 == domain_todos@[q].id.0);
            }
            assert forall|id: u64| self.store().contains_key(id) implies exists|k: int|
                0 <= k < todos@.len() && #[trigger] todos@[k].id.0 == id by {
                let w = choose|k: int| 0 <= k < domain_todos@.len()
                    && #[trigger] domain_todos@[k].id.0 == id;
                assert(todos@[w].id.0 == id);
            }
        }
        todos
    }

    fn update(&mut self, todo: &api_models::Todo) -> (result: Result<(), TodoControllerUpdateErr>) {
        let as_domain_todo = domain_models::Todo::from(todo);
        match self.todo_service.update(&as_domain_todo) {
            Ok(()) => Ok(()),
            Err(e) => Err(TodoControllerUpdateErr::from(e)),
        }
    }

    fn delete(&mut self, todo_id: &api_models::TodoId) -> (result: Result<
        (),
        TodoControllerLookupErr,
    >) {
        let domain_id = domain_models::TodoId::from(todo_id);
        match self.todo_service.delete(&domain_id) {
            Ok(()) => Ok(()),
            Err(e) => Err(TodoControllerLookupErr::from(e)),
        }
    }
}

impl From<TodoServiceLookupErr> for TodoControllerLookupErr {
    /// Presents the service's lookup error in the controller's vocabulary,
    /// keeping the identifier.
    fn from(e: TodoServiceLookupErr) -> (r: Self) {
        match e {
            TodoServiceLookupErr::NotFound(id) => TodoControllerLookupErr::NotFound(
                api_models::TodoId(id.0),
            ),
        }
    }
}

impl vstd::std_specs::convert::FromSpecImpl<TodoServiceLookupErr> for TodoControllerLookupErr {
    open spec fn obeys_from_spec() -> bool {
        true
    }

    open spec fn from_spec(e: TodoServiceLookupErr) -> Self {
        match e {
            TodoServiceLookupErr::NotFound(id) => TodoControllerLookupErr::NotFound(
                api_models::TodoId(id.0),
            ),
        }
    }
}

impl From<TodoServiceDataErr> for TodoControllerDataErr {
    /// Presents the service's validation error in the controller's
    /// vocabulary, keeping the offending task text.
    fn from(e: TodoServiceDataErr) -> (r: Self) {
        match e {
            TodoServiceDataErr::InvalidData { task } => TodoControllerDataErr::InvalidData { task },
        }
    }
}

impl vstd::std_specs::convert::FromSpecImpl<TodoServiceDataErr> for TodoControllerDataErr {
    open spec fn obeys_from_spec() -> bool {
        true
    }

    open spec fn from_spec(e: TodoServiceDataErr) -> Self {
        match e {
            TodoServiceDataErr::InvalidData { task } => TodoControllerDataErr::InvalidData { task },
        }
    }
}

impl From<TodoServiceUpdateErr> for TodoControllerUpdateErr {
    /// Presents the service's update error in the controller's vocabulary,
    /// preserving which branch occurred.
    fn from(err: TodoServiceUpdateErr) -> (r: Self) {
        match err {
            TodoServiceUpdateErr::DataErr(inner) => TodoControllerUpdateErr::DataErr(
                TodoControllerDataErr::from(inner),
            ),
            TodoServiceUpdateErr::LookupErr(inner) => TodoControllerUpdateErr::LookupErr(
                TodoControllerLookupErr::from(inner),
            ),
        }
    }
}

impl vstd::std_specs::convert::FromSpecImpl<TodoServiceUpdateErr> for TodoControllerUpdateErr {
    open spec fn obeys_from_spec() -> bool {
        true
    }

    open spec fn from_spec(err: TodoServiceUpdateErr) -> Self {
        match err {
            TodoServiceUpdateErr::DataErr(TodoServiceDataErr::InvalidData { task }) =>
                TodoControllerUpdateErr::DataErr(TodoControllerDataErr::InvalidData { task }),
            TodoServiceUpdateErr::LookupErr(TodoServiceLookupErr::NotFound(id)) =>
                TodoControllerUpdateErr::LookupErr(TodoControllerLookupErr::NotFound(
                    api_models::TodoId(id.0),
                )),
        }
    }
}

} // verus!
