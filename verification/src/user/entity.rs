//! The user entity: an opaque identifier plus a nickname, immutable once
//! constructed.

use crate::id::{decoded, encoded, is_canonical, is_random_variant, ParseError};
use vstd::prelude::*;

verus! {

/// Opaque identifier of a user.
#[derive(Clone, Copy, Debug, PartialEq, Eq, Structural)]
pub struct Id(u128);

impl View for Id {
    type V = u128;

    closed spec fn view(&self) -> u128 {
        self.0
    }
}

impl Id {
    /// A fresh identifier drawn from the random 128-bit space; it always
    /// carries the randomly-generated structural tag.
    pub fn generate() -> (r: Id)
        ensures
            is_random_variant(r@),
    {
        Id(crate::id::generate())
    }

    /// Trusted constructor used when rehydrating from storage: the raw
    /// value is taken verbatim, deliberately without validation.
    pub fn new(value: u128) -> (r: Id)
        ensures
            r@ == value,
    {
        Id(value)
    }

    /// The raw 128-bit value.
    pub fn inner_value(&self) -> (r: u128)
        ensures
            r == self@,
    {
        self.0
    }

    /// The canonical hyphenated hexadecimal form of this identifier.
    pub fn to_string(&self) -> (r: String)
        ensures
            r@ == encoded(self@),
    {
        crate::id::encode(self.0)
    }

    /// Decodes the canonical textual form; fails with `ParseError` exactly
    /// on text that does not match the canonical grouping, length and
    /// character set.
    pub fn from_string(s: &str) -> (r: Result<Id, ParseError>)
        ensures
            match r {
                Ok(id) => is_canonical(s@) && id@ == decoded(s@),
                Err(_) => !is_canonical(s@),
            },
    {
        match crate::id::decode(s) {
            Some(v) => Ok(Id(v)),
            None => Err(ParseError),
        }
    }
}

/// The mathematical shape of a user: its raw identifier and nickname.
pub struct UserView {
    pub id: u128,
    pub nickname: Seq<char>,
}

/// A user entity. Immutable once constructed; "updates" do not exist.
#[derive(Debug)]
pub struct User {
    id: Id,
    nickname: String,
}

impl View for User {
    type V = UserView;

    closed spec fn view(&self) -> UserView {
        UserView { id: self.id@, nickname: self.nickname@ }
    }
}

impl User {
    /// A fresh user: a newly generated identifier and the given nickname,
    /// taken as it is (no validation of its shape happens at this layer).
    pub fn new(nickname: &str) -> (u: User)
        ensures
            u@.nickname == nickname@,
            is_random_variant(u@.id),
    {
        User { id: Id::generate(), nickname: nickname.to_owned() }
    }

    /// Rehydrates a user from a storage row, both fields verbatim.
    pub fn build_from_repository(id: Id, nickname: String) -> (u: User)
        ensures
            u@.id == id@,
            u@.nickname == nickname@,
    {
        User { id, nickname }
    }

    pub fn id(&self) -> (r: &Id)
        ensures
            r@ == self@.id,
    {
        &self.id
    }

    pub fn nickname(&self) -> (r: &str)
        ensures
            r@ == self@.nickname,
    {
        self.nickname.as_str()
    }
}

impl PartialEq for User {
    fn eq(&self, other: &User) -> (r: bool) {
        self.id == other.id && self.nickname == other.nickname
    }
}

impl Eq for User {

}

impl vstd::std_specs::cmp::PartialEqSpecImpl for User {
    open spec fn obeys_eq_spec() -> bool {
        true
    }

    open spec fn eq_spec(&self, other: &User) -> bool {
        self@.id == other@.id && self@.nickname == other@.nickname
    }
}

} // verus!
