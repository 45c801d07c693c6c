//! The request handling of a todo-list backend.
//!
//! - `todo`: the entry type and the text helpers it needs.
//! - `reply`: the response envelope, its status codes and messages.
//! - `dispatch`: each request as a sequence of store statements: `begin`
//!   validates and names the first statement, `advance` decides from each
//!   answer what runs next or what is replied.
//! - `store`: what each statement does to the table, and an in-memory table
//!   that runs requests end to end under those rules.
//! - `laws`: properties of whole requests, proved over the table's rules.
//! - `pool`: the connection pool's bounds and its startup retry policy.
//! - `error`: why the server could not start.

pub mod todo;
pub mod reply;
pub mod dispatch;
pub mod pool;
pub mod store;
pub mod laws;
pub mod error;
