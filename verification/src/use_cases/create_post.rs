//! Creating a post: construct a fresh entity from the raw body and
//! persist it with a single save.

use crate::id::is_random_variant;
use crate::post::entity::{Post, PostView};
use crate::post::repository::{RepositoryInterface, Save};
use vstd::prelude::*;

verus! {

/// The contract of creating a post, over an abstract view of the rows
/// the underlying store holds. The raw body is accepted as it is; on
/// success the returned entity carries a freshly generated identifier
/// and is known to be persisted, and on failure the store is unchanged
/// and the repository's error is passed through untranslated.
pub trait Interface: Sized {
    /// The rows held by the store this use case writes to.
    spec fn store(&self) -> Seq<PostView>;

    /// Builds a fresh post from the raw body and saves it, exactly once;
    /// nothing is retried and no read is performed.
    fn call(&mut self, content: &str) -> (r: Result<Post, Save>)
        ensures
            match r {
                Ok(p) => p@.content == content@ && is_random_variant(p@.id)
                    && final(self).store() == old(self).store().push(p@),
                Err(Save::Other(_)) => final(self).store() == old(self).store(),
            },
    ;
}

/// The one concrete use case, parameterized by the repository it is
/// composed with.
#[derive(Debug)]
pub struct UseCase<R: RepositoryInterface> {
    repository: R,
}

impl<R: RepositoryInterface> UseCase<R> {
    /// Plain explicit composition: pass the repository in.
    pub fn new(repository: R) -> (r: UseCase<R>)
        ensures
            r.store() == repository.rows(),
    {
        UseCase { repository }
    }

    /// Releases the composed repository, for callers that keep using the
    /// same backing store after the use case is done.
    pub fn into_repository(self) -> (r: R)
        ensures
            r.rows() == self.store(),
    {
        self.repository
    }
}

impl<R: RepositoryInterface> Interface for UseCase<R> {
    closed spec fn store(&self) -> Seq<PostView> {
        self.repository.rows()
    }

    fn call(&mut self, content: &str) -> (r: Result<Post, Save>) {
        let post = Post::new(content);
        match self.repository.save(&post) {
            Ok(()) => Ok(post),
            Err(e) => Err(e),
        }
    }
}

} // verus!
