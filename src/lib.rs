//! The per-component execution engine of a reactive user interface: a
//! component's transitions, the control state of the task that drives it,
//! and the context that code inside a drive call can query.

pub mod action;
pub mod component;
pub mod context;
pub mod laws;
pub mod lifecycle;
pub mod task;
