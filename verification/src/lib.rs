//! A small layered store for todo tasks.
//!
//! The layers, bottom up:
//! - [`todo`] holds the domain model: tasks, their identifiers, and the
//!   repository interface that owns the persisted entries.
//! - [`todo_repo`] is the in-memory repository: it assigns identifiers and
//!   keeps the entries ordered by id.
//! - [`todo_service`] validates task content before any mutating call and
//!   turns repository errors into typed lookup errors.
//! - [`todo_controller`] adapts the service to the transport-facing model
//!   types and error vocabulary in [`models`].
//! - [`laws`] states and proves properties that relate the operations to
//!   one another.

pub mod laws;
pub mod models;
pub mod todo;
pub mod todo_controller;
pub mod todo_repo;
pub mod todo_service;
