//! The post aggregate: its identifier and entity, and the persistence
//! abstraction with its error taxonomy.

pub mod entity;
pub mod repository;
