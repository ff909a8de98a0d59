//! A user directory behind a repository port: the domain model, the mapping
//! between stored rows and users, an in-memory repository whose operations are
//! proved against a table model, and the HTTP replies that each operation
//! leads to.

pub mod role;
pub mod user;
mod runtime;
pub mod row;
pub mod store;
pub mod reply;
