//! Native state and binary messages for a host runtime that can only pass integers
//! and byte buffers.
//!
//! - `registry`: integer handles over owned values, with released handles detected.
//! - `wire`, `model`, `performance`, `response`: the big-endian request and
//!   response layouts.
//! - `collection`: the editable collection document.
//! - `session`: the gradual calculation cursor.
//! - `bridge`: the operations the host calls, by handle.
//! - `engine`: what is taken from rosu_pp and osu_db.

pub mod bridge;
pub mod collection;
pub mod engine;
pub mod error;
pub mod model;
pub mod performance;
pub mod registry;
pub mod response;
pub mod session;
pub mod text;
pub mod wire;
