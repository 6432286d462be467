//! The decision half of the database-backed repositories: the backend
//! signals one of a few distinguishable outcomes for each statement, and
//! the functions here classify every outcome into the exact domain
//! result. The side that executes SQL performs no classification of its
//! own beyond reading off the backend's signal.

use crate::post;
use crate::user;
use vstd::prelude::*;

verus! {

/// What a point lookup reported: the matched row, zero matching rows, or
/// an opaque failure with its cause.
#[derive(Debug)]
pub enum FindOutcome {
    Row { id: u128, field: String },
    NoRows,
    Failure { cause: String },
}

/// What an insert reported: done, a named uniqueness-constraint
/// violation, or an opaque failure with its cause.
#[derive(Debug)]
pub enum SaveOutcome {
    Done,
    ConstraintViolation { constraint: String, cause: String },
    Failure { cause: String },
}

/// The name of the uniqueness constraint over the user table's nickname
/// column.
pub open spec fn nickname_constraint() -> Seq<char> {
    "users_nickname_unique"@
}

/// Classifies a user lookup outcome: the row rehydrates verbatim into an
/// entity, zero rows is exactly `NotFound`, and an opaque failure keeps
/// its cause — absence and failure are never coerced into one another.
pub fn user_find_result(outcome: FindOutcome) -> (r: Result<user::entity::User, user::repository::Find>)
    ensures
        match outcome {
            FindOutcome::Row { id, field } => (r matches Ok(u) && u@.id == id && u@.nickname
                == field@),
            FindOutcome::NoRows => r matches Err(user::repository::Find::NotFound),
            FindOutcome::Failure { cause } => (r matches Err(user::repository::Find::Other(c))
                && c@ == cause@),
        },
{
    match outcome {
        FindOutcome::Row { id, field } => Ok(
            user::entity::User::build_from_repository(user::entity::Id::new(id), field),
        ),
        FindOutcome::NoRows => Err(user::repository::Find::NotFound),
        FindOutcome::Failure { cause } => Err(user::repository::Find::Other(cause)),
    }
}

/// Classifies a user insert outcome: a violation of the nickname
/// uniqueness constraint — matched by the known constraint name — is the
/// named conflict carrying the nickname that was being saved; every
/// other violation or failure is opaque and keeps its cause.
pub fn user_save_result(outcome: SaveOutcome, nickname: &str) -> (r: Result<
    (),
    user::repository::Save,
>)
    ensures
        match outcome {
            SaveOutcome::Done => r matches Ok(()),
            SaveOutcome::ConstraintViolation { constraint, cause } => {
                if constraint@ == nickname_constraint() {
                    (r matches Err(user::repository::Save::NicknameExists { nickname: n }) && n@
                        == nickname@)
                } else {
                    (r matches Err(user::repository::Save::Other(c)) && c@ == cause@)
                }
            },
            SaveOutcome::Failure { cause } => (r matches Err(user::repository::Save::Other(c))
                && c@ == cause@),
        },
{
    match outcome {
        SaveOutcome::Done => Ok(()),
        SaveOutcome::ConstraintViolation { constraint, cause } => {
            let expected: String = "users_nickname_unique".to_owned();
            if constraint == expected {
                Err(user::repository::Save::NicknameExists { nickname: nickname.to_owned() })
            } else {
                Err(user::repository::Save::Other(cause))
            }
        },
        SaveOutcome::Failure { cause } => Err(user::repository::Save::Other(cause)),
    }
}

/// Classifies a post lookup outcome, exactly as for users.
pub fn post_find_result(outcome: FindOutcome) -> (r: Result<post::entity::Post, post::repository::Find>)
    ensures
        match outcome {
            FindOutcome::Row { id, field } => (r matches Ok(p) && p@.id == id && p@.content
                == field@),
            FindOutcome::NoRows => r matches Err(post::repository::Find::NotFound),
            FindOutcome::Failure { cause } => (r matches Err(post::repository::Find::Other(c))
                && c@ == cause@),
        },
{
    match outcome {
        FindOutcome::Row { id, field } => Ok(
            post::entity::Post::build_from_repository(post::entity::Id::new(id), field),
        ),
        FindOutcome::NoRows => Err(post::repository::Find::NotFound),
        FindOutcome::Failure { cause } => Err(post::repository::Find::Other(cause)),
    }
}

/// Classifies a post insert outcome: posts have no named conflict, so
/// every violation or failure is opaque and keeps its cause.
pub fn post_save_result(outcome: SaveOutcome) -> (r: Result<(), post::repository::Save>)
    ensures
        match outcome {
            SaveOutcome::Done => r matches Ok(()),
            SaveOutcome::ConstraintViolation { constraint, cause } => (r matches Err(
                post::repository::Save::Other(c),
            ) && c@ == cause@),
            SaveOutcome::Failure { cause } => (r matches Err(post::repository::Save::Other(c))
                && c@ == cause@),
        },
{
    match outcome {
        SaveOutcome::Done => Ok(()),
        SaveOutcome::ConstraintViolation { constraint: _, cause } => Err(
            post::repository::Save::Other(cause),
        ),
        SaveOutcome::Failure { cause } => Err(post::repository::Save::Other(cause)),
    }
}

} // verus!
