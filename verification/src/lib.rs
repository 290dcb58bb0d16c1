//! A user store with an access layer over it: accounts are kept under a
//! unique identifier and a unique email, passwords are stored as bcrypt
//! hashes only, and every answer that leaves the layer is a `UserResponse`,
//! which has no field for the hash.
//!
//! - `error`: the failures that the access layer reports.
//! - `models`, `register_models`: the records and what is shown of them.
//! - `model_response`: the mapping from a record to its response.
//! - `password`: hashing and verification.
//! - `sources`: where identifiers and the time come from.
//! - `text`: comparison of strings.
//! - `table`: the table as a sequence of rows, and what each write does.
//! - `store`: the table in memory.
//! - `user_repository`, `user_repository_imp`: the access layer.
//! - `registration`: registration and the list of users.
//! - `laws`: what holds across the operations.

pub mod error;
pub mod laws;
pub mod model_response;
pub mod models;
pub mod password;
pub mod register_models;
pub mod registration;
pub mod sources;
pub mod store;
pub mod table;
pub mod text;
pub mod user_repository;
pub mod user_repository_imp;
