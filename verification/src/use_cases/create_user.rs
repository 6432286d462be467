//! Creating a user: construct a fresh entity from the raw nickname and
//! persist it with a single save.

use crate::id::is_random_variant;
use crate::user::entity::{User, UserView};
use crate::user::repository::{nickname_in, RepositoryInterface, Save};
use vstd::prelude::*;

verus! {

/// The contract of creating a user, over an abstract view of the rows
/// the underlying store holds. The raw nickname is accepted as it is; on
/// success the returned entity carries a freshly generated identifier
/// and is known to be persisted, and on failure the store is unchanged
/// and the repository's error is passed through untranslated.
pub trait Interface: Sized {
    /// The rows held by the store this use case writes to.
    spec fn store(&self) -> Seq<UserView>;

    /// Builds a fresh user from the raw nickname and saves it, exactly
    /// once; nothing is retried and no read is performed.
    fn call(&mut self, nickname: &str) -> (r: Result<User, Save>)
        ensures
            match r {
                Ok(u) => u@.nickname == nickname@ && is_random_variant(u@.id) && !nickname_in(
                    old(self).store(),
                    nickname@,
                ) && final(self).store() == old(self).store().push(u@),
                Err(Save::NicknameExists { nickname: taken }) => taken@ == nickname@
                    && nickname_in(old(self).store(), nickname@)
                    && final(self).store() == old(self).store(),
                Err(Save::Other(_)) => final(self).store() == old(self).store(),
            },
            nickname_in(old(self).store(), nickname@) ==> (r matches Err(
                Save::NicknameExists { .. },
            )),
    ;
}

/// The one concrete use case, parameterized by the repository it is
/// composed with.
#[derive(Debug)]
pub struct UseCase<R: RepositoryInterface> {
    repository: R,
}

impl<R: RepositoryInterface> UseCase<R> {
    /// Plain explicit composition: pass the repository in.
    pub fn new(repository: R) -> (r: UseCase<R>)
        ensures
            r.store() == repository.rows(),
    {
        UseCase { repository }
    }

    /// Releases the composed repository, for callers that keep using the
    /// same backing store after the use case is done.
    pub fn into_repository(self) -> (r: R)
        ensures
            r.rows() == self.store(),
    {
        self.repository
    }
}

impl<R: RepositoryInterface> Interface for UseCase<R> {
    closed spec fn store(&self) -> Seq<UserView> {
        self.repository.rows()
    }

    fn call(&mut self, nickname: &str) -> (r: Result<User, Save>) {
        let user = User::new(nickname);
        match self.repository.save(&user) {
            Ok(()) => Ok(user),
            Err(e) => Err(e),
        }
    }
}

} // verus!
