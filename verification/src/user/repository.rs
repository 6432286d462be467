//! The persistence abstraction for users: the lookup and save error
//! taxonomy, the repository interface with its contract, and an
//! in-memory implementation bound to it.

use super::entity::{Id, User, UserView};
use vstd::prelude::*;

verus! {

/// Failure of a lookup. `NotFound` is the normal domain outcome for a key
/// with zero matching rows; `Other` is an opaque infrastructure failure
/// and retains the underlying cause for diagnostics.
#[derive(Debug)]
pub enum Find {
    NotFound,
    Other(String),
}

/// Failure of an insert. `NicknameExists` is the named domain conflict
/// raised when the uniqueness constraint on the nickname is violated;
/// `Other` is an opaque infrastructure failure carrying its cause.
#[derive(Debug)]
pub enum Save {
    NicknameExists { nickname: String },
    Other(String),
}

/// Whether some row of `rows` has the identifier `id`.
pub open spec fn id_in(rows: Seq<UserView>, id: u128) -> bool {
    exists|i: int| 0 <= i < rows.len() && rows[i].id == id
}

/// Whether some row of `rows` has the nickname `nickname`.
pub open spec fn nickname_in(rows: Seq<UserView>, nickname: Seq<char>) -> bool {
    exists|i: int| 0 <= i < rows.len() && rows[i].nickname == nickname
}

/// Whether `row` stands in `rows`.
pub open spec fn row_in(rows: Seq<UserView>, row: UserView) -> bool {
    exists|i: int| 0 <= i < rows.len() && rows[i] == row
}

/// The persistence contract for users, over an abstract view of the
/// stored rows. `NotFound` is owed exactly on keys with zero matching
/// rows — an infrastructure failure is never coerced to it, nor it to
/// one. A save either appends the one given row, or reports the named
/// nickname conflict, or fails opaquely leaving the rows unchanged.
pub trait RepositoryInterface: Sized {
    /// The rows currently held by the backing store. Implementations
    /// override this with their own model; the default is the empty store.
    open spec fn rows(&self) -> Seq<UserView> {
        Seq::empty()
    }

    /// Looks a user up by its identifier.
    fn find(&self, id: &Id) -> (r: Result<User, Find>)
        ensures
            match r {
                Ok(u) => u@.id == id@ && row_in(self.rows(), u@),
                Err(Find::NotFound) => !id_in(self.rows(), id@),
                Err(Find::Other(_)) => true,
            },
            !id_in(self.rows(), id@) ==> (r matches Err(Find::NotFound)),
    ;

    /// Looks a user up by its secondary key, the nickname.
    fn find_by_nickname(&self, nickname: &str) -> (r: Result<User, Find>)
        ensures
            match r {
                Ok(u) => u@.nickname == nickname@ && row_in(self.rows(), u@),
                Err(Find::NotFound) => !nickname_in(self.rows(), nickname@),
                Err(Find::Other(_)) => true,
            },
            !nickname_in(self.rows(), nickname@) ==> (r matches Err(Find::NotFound)),
    ;

    /// Inserts a new row; never an upsert. A taken nickname is reported
    /// as the named conflict carrying that nickname, never as `Other`.
    fn save(&mut self, user: &User) -> (r: Result<(), Save>)
        ensures
            match r {
                Ok(()) => !id_in(old(self).rows(), user@.id) && !nickname_in(
                    old(self).rows(),
                    user@.nickname,
                ) && final(self).rows() == old(self).rows().push(user@),
                Err(Save::NicknameExists { nickname }) => nickname@ == user@.nickname
                    && nickname_in(old(self).rows(), user@.nickname) && final(self).rows() == old(
                    self,
                ).rows(),
                Err(Save::Other(_)) => final(self).rows() == old(self).rows(),
            },
            nickname_in(old(self).rows(), user@.nickname) ==> (r matches Err(
                Save::NicknameExists { .. },
            )),
    ;
}

/// After a save has appended a row, that row's nickname is taken. By the
/// save contract, a second save with the same nickname must then return
/// the named `NicknameExists` conflict carrying it — never `Other`.
pub proof fn lemma_saved_nickname_is_taken(rows: Seq<UserView>, row: UserView)
    ensures
        nickname_in(rows.push(row), row.nickname),
{
    assert(rows.push(row)[rows.len() as int] == row);
}

/// Character-wise string comparison.
fn str_eq(a: &str, b: &str) -> (r: bool)
    ensures
        r == (a@ == b@),
{
    let na = a.unicode_len();
    let nb = b.unicode_len();
    if na != nb {
        return false;
    }
    let mut i: usize = 0;
    while i < na
        invariant
            na == a@.len(),
            na == b@.len(),
            i <= na,
            forall|t: int| 0 <= t < i ==> a@[t] == b@[t],
        decreases na - i,
    {
        if a.get_char(i) != b.get_char(i) {
            return false;
        }
        i += 1;
    }
    proof {
        assert(a@ =~= b@);
    }
    true
}

/// An in-memory repository bound to the same contract as the persistent
/// one; rows live in process memory for the lifetime of the value.
#[derive(Debug)]
pub struct MemoryRepository {
    users: Vec<User>,
}

impl MemoryRepository {
    /// An empty store.
    pub fn new() -> (r: MemoryRepository)
        ensures
            r.rows() == Seq::<UserView>::empty(),
    {
        let r = MemoryRepository { users: Vec::new() };
        proof {
            assert(r.rows() =~= Seq::<UserView>::empty());
        }
        r
    }
}

impl RepositoryInterface for MemoryRepository {
    closed spec fn rows(&self) -> Seq<UserView> {
        self.users@.map_values(|u: User| u@)
    }

    fn find(&self, id: &Id) -> (r: Result<User, Find>)
        ensures
            id_in(self.rows(), id@) ==> (r matches Ok(_)),
    {
        let mut i: usize = 0;
        while i < self.users.len()
            invariant
                i <= self.users.len(),
                forall|t: int| 0 <= t < i ==> self.rows()[t].id != id@,
            decreases self.users.len() - i,
        {
            let u = &self.users[i];
            if u.id().inner_value() == id.inner_value() {
                let copy = User::build_from_repository(
                    Id::new(u.id().inner_value()),
                    u.nickname().to_owned(),
                );
                proof {
                    assert(copy@ == self.rows()[i as int]);
                    assert(row_in(self.rows(), copy@));
                }
                return Ok(copy);
            }
            i += 1;
        }
        Err(Find::NotFound)
    }

    fn find_by_nickname(&self, nickname: &str) -> (r: Result<User, Find>)
        ensures
            nickname_in(self.rows(), nickname@) ==> (r matches Ok(_)),
    {
        let mut i: usize = 0;
        while i < self.users.len()
            invariant
                i <= self.users.len(),
                forall|t: int| 0 <= t < i ==> self.rows()[t].nickname != nickname@,
            decreases self.users.len() - i,
        {
            let u = &self.users[i];
            if str_eq(u.nickname(), nickname) {
                let copy = User::build_from_repository(
                    Id::new(u.id().inner_value()),
                    u.nickname().to_owned(),
                );
                proof {
                    assert(copy@ == self.rows()[i as int]);
                    assert(row_in(self.rows(), copy@));
                }
                return Ok(copy);
            }
            i += 1;
        }
        Err(Find::NotFound)
    }

    fn save(&mut self, user: &User) -> (r: Result<(), Save>)
        ensures
            !nickname_in(old(self).rows(), user@.nickname) && !id_in(old(self).rows(), user@.id)
                ==> (r matches Ok(_)),
    {
        let mut i: usize = 0;
        while i < self.users.len()
            invariant
                i <= self.users.len(),
                forall|t: int| 0 <= t < i ==> self.rows()[t].nickname != user@.nickname,
            decreases self.users.len() - i,
        {
            if str_eq(self.users[i].nickname(), user.nickname()) {
                proof {
                    assert(self.rows()[i as int] == self.users@[i as int]@);
                    assert(nickname_in(self.rows(), user@.nickname));
                }
                return Err(Save::NicknameExists { nickname: user.nickname().to_owned() });
            }
            i += 1;
        }
        let mut i: usize = 0;
        while i < self.users.len()
            invariant
                i <= self.users.len(),
                !nickname_in(self.rows(), user@.nickname),
                forall|t: int| 0 <= t < i ==> self.rows()[t].id != user@.id,
            decreases self.users.len() - i,
        {
            if self.users[i].id().inner_value() == user.id().inner_value() {
                proof {
                    assert(self.rows()[i as int] == self.users@[i as int]@);
                    assert(id_in(self.rows(), user@.id));
                }
                return Err(Save::Other("identifier already present".to_owned()));
            }
            i += 1;
        }
        let copy = User::build_from_repository(
            Id::new(user.id().inner_value()),
            user.nickname().to_owned(),
        );
        proof {
            assert(copy@ == user@);
        }
        self.users.push(copy);
        proof {
            assert(self.rows() =~= old(self).rows().push(user@));
        }
        Ok(())
    }
}

} // verus!
