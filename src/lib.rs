//! Data access for auth credentials, users, teams and team members.
//!
//! The library turns typed repository calls into [`store::Statement`]s for a
//! relational store, reads the store's [`store::Reply`] back into typed
//! results, and decides the responses of the REST and GraphQL surfaces.
//! Running a statement against the database is left to the caller.

pub mod api;
pub mod cleanup;
pub mod clock;
pub mod dto;
pub mod engine;
pub mod error;
pub mod ids;
pub mod laws;
pub mod model;
mod password;
pub mod store;
pub mod validate;
