use clean_backend::id::validate;
use clean_backend::post;
use clean_backend::post::repository::RepositoryInterface as PostRepositoryInterface;
use clean_backend::use_cases::create_post;
use clean_backend::use_cases::create_post::Interface as CreatePostInterface;
use clean_backend::use_cases::create_user;
use clean_backend::use_cases::create_user::Interface as CreateUserInterface;
use clean_backend::user;
use clean_backend::user::repository::RepositoryInterface as UserRepositoryInterface;

struct FailingRepository;

impl user::repository::RepositoryInterface for FailingRepository {
    fn find(&self, _id: &user::entity::Id) -> Result<user::entity::User, user::repository::Find> {
        Err(user::repository::Find::Other("wires down".to_owned()))
    }

    fn find_by_nickname(
        &self,
        _nickname: &str,
    ) -> Result<user::entity::User, user::repository::Find> {
        Err(user::repository::Find::Other("wires down".to_owned()))
    }

    fn save(&mut self, _user: &user::entity::User) -> Result<(), user::repository::Save> {
        Err(user::repository::Save::Other("wires down".to_owned()))
    }
}

#[test]
fn an_opaque_save_failure_passes_through_unmodified() {
    let mut use_case = create_user::UseCase::new(FailingRepository);
    match use_case.call("x") {
        Err(user::repository::Save::Other(cause)) => assert_eq!(cause, "wires down"),
        _ => panic!("the repository's opaque failure must come back verbatim"),
    }
}

#[test]
fn creating_a_user_persists_it_under_both_keys() {
    let mut use_case = create_user::UseCase::new(user::repository::MemoryRepository::new());

    let created = use_case.call("elliot").expect("an empty store accepts any nickname");
    assert_eq!(created.nickname(), "elliot");
    assert!(validate(created.id().inner_value()));

    let repo = use_case.into_repository();
    let found = repo.find_by_nickname("elliot").expect("the created user is persisted");
    assert_eq!(found.id().inner_value(), created.id().inner_value());
    assert_eq!(found.nickname(), "elliot");
}

#[test]
fn creating_a_post_persists_its_content() {
    let mut use_case = create_post::UseCase::new(post::repository::MemoryRepository::new());

    let created = use_case.call("hello world").expect("an empty store accepts any post");
    assert_eq!(created.content(), "hello world");
    assert!(validate(created.id().inner_value()));

    let repo = use_case.into_repository();
    let found = repo.find(created.id()).expect("the created post is persisted");
    assert_eq!(found.content(), "hello world");
}

#[test]
fn a_conflicting_creation_reports_the_nickname() {
    let mut use_case = create_user::UseCase::new(user::repository::MemoryRepository::new());
    use_case.call("zoe").expect("an empty store accepts any nickname");
    match use_case.call("zoe") {
        Err(user::repository::Save::NicknameExists { nickname }) => assert_eq!(nickname, "zoe"),
        _ => panic!("a taken nickname must be the named conflict"),
    }
}
