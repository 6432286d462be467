//! Core of a small layered backend: entity identifiers with a canonical
//! textual form, immutable domain entities (users and posts), repository
//! abstractions with a precise error taxonomy, and the create use cases
//! that tie entity construction to a single persistence call.

pub mod db;
pub mod id;
pub mod minimal;
pub mod post;
pub mod use_cases;
pub mod user;
