//! The post entity: an opaque identifier plus a plain-text body,
//! immutable once constructed.

use crate::id::{decoded, encoded, is_canonical, is_random_variant, ParseError};
use vstd::prelude::*;

verus! {

/// Opaque identifier of a post.
#[derive(Clone, Copy, Debug, PartialEq, Eq, Structural)]
pub struct Id(u128);

impl View for Id {
    type V = u128;

    closed spec fn view(&self) -> u128 {
        self.0
    }
}

impl Id {
    /// A fresh identifier drawn from the random 128-bit space; it always
    /// carries the randomly-generated structural tag.
    pub fn generate() -> (r: Id)
        ensures
            is_random_variant(r@),
    {
        Id(crate::id::generate())
    }

    /// Trusted constructor used when rehydrating from storage: the raw
    /// value is taken verbatim, deliberately without validation.
    pub fn new(value: u128) -> (r: Id)
        ensures
            r@ == value,
    {
        Id(value)
    }

    /// The raw 128-bit value.
    pub fn inner_value(&self) -> (r: u128)
        ensures
            r == self@,
    {
        self.0
    }

    /// The canonical hyphenated hexadecimal form of this identifier.
    pub fn to_string(&self) -> (r: String)
        ensures
            r@ == encoded(self@),
    {
        crate::id::encode(self.0)
    }

    /// Decodes the canonical textual form; fails with `ParseError` exactly
    /// on text that does not match the canonical grouping, length and
    /// character set.
    pub fn from_string(s: &str) -> (r: Result<Id, ParseError>)
        ensures
            match r {
                Ok(id) => is_canonical(s@) && id@ == decoded(s@),
                Err(_) => !is_canonical(s@),
            },
    {
        match crate::id::decode(s) {
            Some(v) => Ok(Id(v)),
            None => Err(ParseError),
        }
    }
}

/// The mathematical shape of a post: its raw identifier and body.
pub struct PostView {
    pub id: u128,
    pub content: Seq<char>,
}

/// A post entity. Immutable once constructed; "updates" do not exist.
#[derive(Debug)]
pub struct Post {
    id: Id,
    content: String,
}

impl View for Post {
    type V = PostView;

    closed spec fn view(&self) -> PostView {
        PostView { id: self.id@, content: self.content@ }
    }
}

impl Post {
    /// A fresh post: a newly generated identifier and the given body,
    /// taken as it is (no validation of its shape happens at this layer).
    pub fn new(content: &str) -> (p: Post)
        ensures
            p@.content == content@,
            is_random_variant(p@.id),
    {
        Post { id: Id::generate(), content: content.to_owned() }
    }

    /// Rehydrates a post from a storage row, both fields verbatim.
    pub fn build_from_repository(id: Id, content: String) -> (p: Post)
        ensures
            p@.id == id@,
            p@.content == content@,
    {
        Post { id, content }
    }

    pub fn id(&self) -> (r: &Id)
        ensures
            r@ == self@.id,
    {
        &self.id
    }

    pub fn content(&self) -> (r: &str)
        ensures
            r@ == self@.content,
    {
        self.content.as_str()
    }
}

impl PartialEq for Post {
    fn eq(&self, other: &Post) -> (r: bool) {
        self.id == other.id && self.content == other.content
    }
}

impl Eq for Post {

}

impl vstd::std_specs::cmp::PartialEqSpecImpl for Post {
    open spec fn obeys_eq_spec() -> bool {
        true
    }

    open spec fn eq_spec(&self, other: &Post) -> bool {
        self@.id == other@.id && self@.content == other@.content
    }
}

} // verus!
