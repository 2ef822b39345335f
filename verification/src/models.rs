//! The transport-facing model types, and their conversions from and into
//! the domain model.

pub mod common;
pub mod todo;
