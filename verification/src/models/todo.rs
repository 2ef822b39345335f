//! The transport-facing task model, mirroring the domain model
//! field for field, with conversions in both directions.

use vstd::prelude::*;

use crate::todo as domain_models;

verus! {

/// Transport-facing task identifier.
#[derive(PartialEq, Eq, Structural, Debug, Copy, Clone)]
pub struct TodoId(pub u64);

/// Transport-facing task content for creation.
#[derive(Debug)]
pub struct TodoData {
    pub task: String,
}

/// Transport-facing persisted task.
#[derive(Debug)]
pub struct Todo {
    pub id: TodoId,
    pub task: String,
}

impl PartialEq for Todo {
    fn eq(&self, other: &Todo) -> (r: bool) {
        self.id == other.id && self.task == other.task
    }
}

impl vstd::std_specs::cmp::PartialEqSpecImpl for Todo {
    open spec fn obeys_eq_spec() -> bool {
        true
    }

    open spec fn eq_spec(&self, other: &Todo) -> bool {
        self.id == other.id && self.task@ == other.task@
    }
}

impl From<&TodoId> for domain_models::TodoId {
    /// Reads the transport identifier as the domain identifier.
    fn from(v: &TodoId) -> (r: Self) {
        domain_models::TodoId(v.0)
    }
}

impl vstd::std_specs::convert::FromSpecImpl<&TodoId> for domain_models::TodoId {
    open spec fn obeys_from_spec() -> bool {
        true
    }

    open spec fn from_spec(v: &TodoId) -> Self {
        domain_models::TodoId(v.0)
    }
}

impl From<&TodoData> for domain_models::TodoData {
    /// Reads the transport creation payload as the domain payload.
    fn from(v: &TodoData) -> (r: Self) {
        domain_models::TodoData { task: v.task.clone() }
    }
}

impl vstd::std_specs::convert::FromSpecImpl<&TodoData> for domain_models::TodoData {
    open spec fn obeys_from_spec() -> bool {
        true
    }

    open spec fn from_spec(v: &TodoData) -> Self {
        domain_models::TodoData { task: v.task }
    }
}

impl From<&Todo> for domain_models::Todo {
    /// Reads the transport task as the domain task.
    fn from(v: &Todo) -> (r: Self) {
        domain_models::Todo { id: domain_models::TodoId(v.id.0), task: v.task.clone() }
    }
}

impl vstd::std_specs::convert::FromSpecImpl<&Todo> for domain_models::Todo {
    open spec fn obeys_from_spec() -> bool {
        true
    }

    open spec fn from_spec(v: &Todo) -> Self {
        domain_models::Todo { id: domain_models::TodoId(v.id.0), task: v.task }
    }
}

impl From<domain_models::TodoId> for TodoId {
    /// Presents the domain identifier as the transport identifier.
    fn from(v: domain_models::TodoId) -> (r: Self) {
        TodoId(v.0)
    }
}

impl vstd::std_specs::convert::FromSpecImpl<domain_models::TodoId> for TodoId {
    open spec fn obeys_from_spec() -> bool {
        true
    }

    open spec fn from_spec(v: domain_models::TodoId) -> Self {
        TodoId(v.0)
    }
}

impl From<domain_models::TodoData> for TodoData {
    /// Presents the domain creation payload as the transport payload.
    fn from(v: domain_models::TodoData) -> (r: Self) {
        TodoData { task: v.task }
    }
}

impl vstd::std_specs::convert::FromSpecImpl<domain_models::TodoData> for TodoData {
    open spec fn obeys_from_spec() -> bool {
        true
    }

    open spec fn from_spec(v: domain_models::TodoData) -> Self {
        TodoData { task: v.task }
    }
}

impl From<domain_models::Todo> for Todo {
    /// Presents the domain task as the transport task.
    fn from(v: domain_models::Todo) -> (r: Self) {
        Todo { id: TodoId(v.id.0), task: v.task }
    }
}

impl vstd::std_specs::convert::FromSpecImpl<domain_models::Todo> for Todo {
    open spec fn obeys_from_spec() -> bool {
        true
    }

    open spec fn from_spec(v: domain_models::Todo) -> Self {
        Todo { id: TodoId(v.id.0), task: v.task }
    }
}

} // verus!
