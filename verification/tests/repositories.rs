use clean_backend::post;
use clean_backend::post::repository::RepositoryInterface as PostRepositoryInterface;
use clean_backend::user;
use clean_backend::user::repository::RepositoryInterface as UserRepositoryInterface;

#[test]
fn find_on_an_absent_key_is_not_found_never_other() {
    let repo = user::repository::MemoryRepository::new();
    let id = user::entity::Id::generate();
    let result = repo.find(&id);
    assert!(matches!(result, Err(user::repository::Find::NotFound)));

    let result = repo.find_by_nickname("nobody");
    assert!(matches!(result, Err(user::repository::Find::NotFound)));

    let repo = post::repository::MemoryRepository::new();
    let id = post::entity::Id::generate();
    let result = repo.find(&id);
    assert!(matches!(result, Err(post::repository::Find::NotFound)));
}

#[test]
fn saved_users_are_found_by_both_keys() {
    let mut repo = user::repository::MemoryRepository::new();
    let user = user::entity::User::new("sam");
    assert!(repo.save(&user).is_ok());

    let by_id = repo.find(user.id()).expect("saved row must be found");
    assert_eq!(by_id.id().inner_value(), user.id().inner_value());
    assert_eq!(by_id.nickname(), "sam");

    let by_nickname = repo.find_by_nickname("sam").expect("saved row must be found");
    assert_eq!(by_nickname.id().inner_value(), user.id().inner_value());
    assert_eq!(by_nickname.nickname(), "sam");
}

#[test]
fn a_second_save_with_the_same_nickname_is_the_named_conflict() {
    let mut repo = user::repository::MemoryRepository::new();
    let first = user::entity::User::new("sam");
    let second = user::entity::User::new("sam");
    assert!(repo.save(&first).is_ok());

    match repo.save(&second) {
        Err(user::repository::Save::NicknameExists { nickname }) => {
            assert_eq!(nickname, "sam");
        },
        _ => panic!("a taken nickname must be the named conflict, never Other"),
    }

    // The conflicting save left the store unchanged.
    let found = repo.find_by_nickname("sam").unwrap();
    assert_eq!(found.id().inner_value(), first.id().inner_value());
}

#[test]
fn a_reused_identifier_is_an_opaque_failure_not_an_upsert() {
    let mut repo = user::repository::MemoryRepository::new();
    let first = user::entity::User::build_from_repository(user::entity::Id::new(5), "ada".to_owned());
    let second =
        user::entity::User::build_from_repository(user::entity::Id::new(5), "bob".to_owned());
    assert!(repo.save(&first).is_ok());
    assert!(matches!(repo.save(&second), Err(user::repository::Save::Other(_))));
    // The failed save changed nothing: the row still carries "ada".
    let found = repo.find(&user::entity::Id::new(5)).unwrap();
    assert_eq!(found.nickname(), "ada");

    let mut repo = post::repository::MemoryRepository::new();
    let first = post::entity::Post::build_from_repository(post::entity::Id::new(9), "x".to_owned());
    let second =
        post::entity::Post::build_from_repository(post::entity::Id::new(9), "y".to_owned());
    assert!(repo.save(&first).is_ok());
    assert!(matches!(repo.save(&second), Err(post::repository::Save::Other(_))));
}

#[test]
fn saved_posts_are_found_with_their_content() {
    let mut repo = post::repository::MemoryRepository::new();
    let post = post::entity::Post::new("hello world");
    assert!(repo.save(&post).is_ok());

    let found = repo.find(post.id()).expect("saved row must be found");
    assert_eq!(found.id().inner_value(), post.id().inner_value());
    assert_eq!(found.content(), "hello world");
}
