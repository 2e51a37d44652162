//! An in-memory store of tasks and the request handlers that work on it.
//!
//! The store is an ordered list of [`model::Task`] records. Each handler in
//! [`handler`] takes the store and a request's values and returns a
//! [`response::Response`]: a status and a body. Every handler has a model, a
//! spec function over the views of its arguments, and its contract equates
//! what it returns, and what it leaves in the store, with that model.
//! [`laws`] proves what holds of the models taken together.
//!
//! Two handlers draw on the world outside: a creation draws a random
//! identifier and reads the clock, an edit reads the clock. The two calls
//! stand in [`ambient`], and each of the two handlers has a twin that takes
//! the identifier and the time as arguments.

pub mod ambient;
pub mod handler;
pub mod laws;
pub mod model;
pub mod response;
pub mod store;
