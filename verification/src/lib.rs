//! Authentication-and-ownership domain layer of a multi-tenant task tracker.
//!
//! Accounts register and log in; a logged-in account holds a signed session
//! token and may create, read, update and soft-delete the tasks it owns.
//! Credential hashing and token signing are delegated to outside crates
//! behind narrow trusted wrappers; everything else — the stores, the
//! ownership scoping, the lifecycle and audit rules — is verified.

pub mod account_repository;
pub mod account_service;
pub mod ambient;
pub mod config;
pub mod context;
pub mod error;
pub mod laws;
pub mod model;
pub mod password;
pub mod response;
pub mod task_repository;
pub mod task_service;
pub mod token;
