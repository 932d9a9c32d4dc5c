//! Task records, their validation rules, an owned task table with the
//! create / list / get / update / delete operations, the error taxonomy and
//! the request handlers that tie them together.
pub mod errors;
pub mod handlers;
pub mod models;
pub mod schema;
pub mod store;
