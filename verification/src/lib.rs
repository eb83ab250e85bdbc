//! A debounced, cancellable, single-active-suggestion edit-prediction core.
//!
//! The crate models the lifecycle of an inline completion ("ghost text")
//! provider for a text editor: a refresh request is debounced, fetched
//! candidates replace the cached suggestion set only when they belong to the
//! most recently issued request, and the cached set is surfaced through
//! `suggest` only while it is still valid for the queried buffer.

pub mod auth;
pub mod provider;
pub mod report;
pub mod request;
pub mod scheduler;
pub mod status;
pub mod suggestion;
pub mod text;
pub mod todo;
pub mod validity;
