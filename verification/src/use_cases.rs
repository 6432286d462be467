//! The use-case layer: each use case performs exactly one domain
//! operation by composing entity construction with a single repository
//! call, and propagates the repository's failure verbatim.

pub mod create_post;
pub mod create_user;
