//! The persistence abstraction for posts: the lookup and save error
//! taxonomy, the repository interface with its contract, and an
//! in-memory implementation bound to it.

use super::entity::{Id, Post, PostView};
use vstd::prelude::*;

verus! {

/// Failure of a lookup. `NotFound` is the normal domain outcome for a key
/// with zero matching rows; `Other` is an opaque infrastructure failure
/// and retains the underlying cause for diagnostics.
#[derive(Debug)]
pub enum Find {
    NotFound,
    Other(String),
}

/// Failure of an insert: an opaque infrastructure failure carrying its
/// cause. Posts have no uniqueness constraint beyond their identifier, so
/// no named conflict exists for them.
#[derive(Debug)]
pub enum Save {
    Other(String),
}

/// Whether some row of `rows` has the identifier `id`.
pub open spec fn id_in(rows: Seq<PostView>, id: u128) -> bool {
    exists|i: int| 0 <= i < rows.len() && rows[i].id == id
}

/// Whether `row` stands in `rows`.
pub open spec fn row_in(rows: Seq<PostView>, row: PostView) -> bool {
    exists|i: int| 0 <= i < rows.len() && rows[i] == row
}

/// The persistence contract for posts, over an abstract view of the
/// stored rows. `NotFound` is owed exactly on keys with zero matching
/// rows — an infrastructure failure is never coerced to it, nor it to
/// one. A save either appends the one given row or fails opaquely
/// leaving the rows unchanged.
pub trait RepositoryInterface: Sized {
    /// The rows currently held by the backing store. Implementations
    /// override this with their own model; the default is the empty store.
    open spec fn rows(&self) -> Seq<PostView> {
        Seq::empty()
    }

    /// Looks a post up by its identifier.
    fn find(&self, id: &Id) -> (r: Result<Post, Find>)
        ensures
            match r {
                Ok(p) => p@.id == id@ && row_in(self.rows(), p@),
                Err(Find::NotFound) => !id_in(self.rows(), id@),
                Err(Find::Other(_)) => true,
            },
            !id_in(self.rows(), id@) ==> (r matches Err(Find::NotFound)),
    ;

    /// Inserts a new row; never an upsert.
    fn save(&mut self, post: &Post) -> (r: Result<(), Save>)
        ensures
            match r {
                Ok(()) => !id_in(old(self).rows(), post@.id) && final(self).rows() == old(
                    self,
                ).rows().push(post@),
                Err(Save::Other(_)) => final(self).rows() == old(self).rows(),
            },
    ;
}

/// An in-memory repository bound to the same contract as the persistent
/// one; rows live in process memory for the lifetime of the value.
#[derive(Debug)]
pub struct MemoryRepository {
    posts: Vec<Post>,
}

impl MemoryRepository {
    /// An empty store.
    pub fn new() -> (r: MemoryRepository)
        ensures
            r.rows() == Seq::<PostView>::empty(),
    {
        let r = MemoryRepository { posts: Vec::new() };
        proof {
            assert(r.rows() =~= Seq::<PostView>::empty());
        }
        r
    }
}

impl RepositoryInterface for MemoryRepository {
    closed spec fn rows(&self) -> Seq<PostView> {
        self.posts@.map_values(|p: Post| p@)
    }

    fn find(&self, id: &Id) -> (r: Result<Post, Find>)
        ensures
            id_in(self.rows(), id@) ==> (r matches Ok(_)),
    {
        let mut i: usize = 0;
        while i < self.posts.len()
            invariant
                i <= self.posts.len(),
                forall|t: int| 0 <= t < i ==> self.rows()[t].id != id@,
            decreases self.posts.len() - i,
        {
            let p = &self.posts[i];
            if p.id().inner_value() == id.inner_value() {
                let copy = Post::build_from_repository(
                    Id::new(p.id().inner_value()),
                    p.content().to_owned(),
                );
                proof {
                    assert(copy@ == self.rows()[i as int]);
                    assert(row_in(self.rows(), copy@));
                }
                return Ok(copy);
            }
            i += 1;
        }
        Err(Find::NotFound)
    }

    fn save(&mut self, post: &Post) -> (r: Result<(), Save>)
        ensures
            !id_in(old(self).rows(), post@.id) ==> (r matches Ok(_)),
    {
        let mut i: usize = 0;
        while i < self.posts.len()
            invariant
                i <= self.posts.len(),
                forall|t: int| 0 <= t < i ==> self.rows()[t].id != post@.id,
            decreases self.posts.len() - i,
        {
            if self.posts[i].id().inner_value() == post.id().inner_value() {
                proof {
                    assert(self.rows()[i as int] == self.posts@[i as int]@);
                    assert(id_in(self.rows(), post@.id));
                }
                return Err(Save::Other("identifier already present".to_owned()));
            }
            i += 1;
        }
        let copy = Post::build_from_repository(
            Id::new(post.id().inner_value()),
            post.content().to_owned(),
        );
        proof {
            assert(copy@ == post@);
        }
        self.posts.push(copy);
        proof {
            assert(self.rows() =~= old(self).rows().push(post@));
        }
        Ok(())
    }
}

} // verus!
