use clean_backend::db::{post_find_result, post_save_result, user_find_result, user_save_result};
use clean_backend::db::{FindOutcome, SaveOutcome};
use clean_backend::post;
use clean_backend::user;

#[test]
fn a_user_row_rehydrates_verbatim() {
    let outcome = FindOutcome::Row { id: 7, field: "sam".to_owned() };
    let user = user_find_result(outcome).expect("a matched row is a success");
    assert_eq!(user.id().inner_value(), 7);
    assert_eq!(user.nickname(), "sam");
}

#[test]
fn zero_user_rows_is_not_found_never_other() {
    let result = user_find_result(FindOutcome::NoRows);
    assert!(matches!(result, Err(user::repository::Find::NotFound)));
}

#[test]
fn a_user_lookup_failure_keeps_its_cause() {
    match user_find_result(FindOutcome::Failure { cause: "timeout".to_owned() }) {
        Err(user::repository::Find::Other(cause)) => assert_eq!(cause, "timeout"),
        _ => panic!("an infrastructure failure must stay opaque"),
    }
}

#[test]
fn the_nickname_constraint_is_the_named_conflict() {
    let outcome = SaveOutcome::ConstraintViolation {
        constraint: "users_nickname_unique".to_owned(),
        cause: "duplicate key".to_owned(),
    };
    match user_save_result(outcome, "sam") {
        Err(user::repository::Save::NicknameExists { nickname }) => assert_eq!(nickname, "sam"),
        _ => panic!("the known constraint must become the named conflict"),
    }
}

#[test]
fn an_unknown_constraint_stays_opaque() {
    let outcome = SaveOutcome::ConstraintViolation {
        constraint: "users_pkey".to_owned(),
        cause: "duplicate key".to_owned(),
    };
    match user_save_result(outcome, "sam") {
        Err(user::repository::Save::Other(cause)) => assert_eq!(cause, "duplicate key"),
        _ => panic!("an unknown constraint must stay opaque"),
    }
}

#[test]
fn a_completed_user_insert_is_a_success() {
    assert!(user_save_result(SaveOutcome::Done, "sam").is_ok());
}

#[test]
fn a_user_insert_failure_keeps_its_cause() {
    match user_save_result(SaveOutcome::Failure { cause: "pool closed".to_owned() }, "sam") {
        Err(user::repository::Save::Other(cause)) => assert_eq!(cause, "pool closed"),
        _ => panic!("an infrastructure failure must stay opaque"),
    }
}

#[test]
fn a_post_row_rehydrates_verbatim() {
    let outcome = FindOutcome::Row { id: 9, field: "hello".to_owned() };
    let post = post_find_result(outcome).expect("a matched row is a success");
    assert_eq!(post.id().inner_value(), 9);
    assert_eq!(post.content(), "hello");
}

#[test]
fn zero_post_rows_is_not_found_never_other() {
    let result = post_find_result(FindOutcome::NoRows);
    assert!(matches!(result, Err(post::repository::Find::NotFound)));
}

#[test]
fn every_post_insert_failure_stays_opaque() {
    let outcome = SaveOutcome::ConstraintViolation {
        constraint: "posts_pkey".to_owned(),
        cause: "duplicate key".to_owned(),
    };
    match post_save_result(outcome) {
        Err(post::repository::Save::Other(cause)) => assert_eq!(cause, "duplicate key"),
        Ok(()) => panic!("a constraint violation is never a success"),
    }
    assert!(post_save_result(SaveOutcome::Done).is_ok());
}
