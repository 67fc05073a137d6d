use todo_api::memory::UserRepositoryImpl;
use todo_api::usecase::{UseCaseError, UserUseCase};
use todo_api::view::{CreateUser, LoginUser, SearchUserCondition};

fn use_case() -> UserUseCase<UserRepositoryImpl> {
    UserUseCase::new(UserRepositoryImpl::new())
}

fn alice() -> CreateUser {
    CreateUser::new("alice@example.com".to_string(), "s3cret!pw".to_string(), "Alice Liddell".to_string())
}

#[test]
fn create_user_then_same_username_is_refused() {
    let mut uc = use_case();
    let first = uc.create_user(alice()).unwrap();
    assert!(!first.id.is_empty());
    assert_eq!(first.id.len(), 26);
    assert_eq!(first.username, "alice@example.com");
    assert_eq!(first.email, "alice@example.com");
    assert_eq!(first.fullname, "Alice Liddell");
    assert_ne!(first.password, "s3cret!pw");
    assert_eq!(first.password.len(), 60);
    assert!(first.password.starts_with("$2b$12$"));
    let second = uc.create_user(CreateUser::new(
        "alice@example.com".to_string(),
        "other1!pw".to_string(),
        "Another Alice".to_string(),
    ));
    match second {
        Err(UseCaseError::UsernameExists(u)) => assert_eq!(u, "alice@example.com"),
        _ => panic!("expected the username to be taken"),
    }
    let err = UseCaseError::UsernameExists("alice@example.com".to_string());
    assert_eq!(err.message(), "username alice@example.com already exists");
}

#[test]
fn login_with_the_registered_password() {
    let mut uc = use_case();
    let created = uc.create_user(alice()).unwrap();
    let logged = uc
        .login_user(LoginUser::new("alice@example.com".to_string(), "s3cret!pw".to_string()))
        .unwrap();
    assert_eq!(logged.id, created.id);
    assert_eq!(logged.username, "alice@example.com");
    assert_eq!(logged.password, created.password);
}

#[test]
fn login_with_a_wrong_password_fails() {
    let mut uc = use_case();
    uc.create_user(alice()).unwrap();
    let r = uc.login_user(LoginUser::new("alice@example.com".to_string(), "wrong!pw1".to_string()));
    assert!(matches!(r, Err(UseCaseError::BadPassword)));
    assert_eq!(UseCaseError::BadPassword.message(), "bad password.");
}

#[test]
fn login_of_an_unknown_username_fails() {
    let uc = use_case();
    let r = uc.login_user(LoginUser::new("bob@example.com".to_string(), "s3cret!pw".to_string()));
    match r {
        Err(e @ UseCaseError::NotRegistered(_)) => {
            assert_eq!(e.message(), "username bob@example.com is not registered")
        }
        _ => panic!("expected an unregistered username"),
    }
}

#[test]
fn get_user_by_id_and_by_username() {
    let mut uc = use_case();
    let created = uc.create_user(alice()).unwrap();
    let by_id = uc.get_user(created.id.clone()).unwrap().unwrap();
    assert_eq!(by_id.username, "alice@example.com");
    let by_lower_id = uc.get_user(created.id.to_lowercase()).unwrap().unwrap();
    assert_eq!(by_lower_id.id, created.id);
    let by_name = uc
        .get_user_by_username(SearchUserCondition { username: Some("alice@example.com".to_string()) })
        .unwrap()
        .unwrap();
    assert_eq!(by_name.id, created.id);
    let none = uc
        .get_user_by_username(SearchUserCondition { username: Some("nobody@example.com".to_string()) })
        .unwrap();
    assert!(none.is_none());
    let missing = uc.get_user("01ARZ3NDEKTSV4RRFFQ69G5FAV".to_string()).unwrap();
    assert!(missing.is_none());
}

#[test]
fn get_user_with_bad_id_or_no_username() {
    let uc = use_case();
    assert!(matches!(uc.get_user("not-an-id".to_string()), Err(UseCaseError::InvalidId)));
    let r = uc.get_user_by_username(SearchUserCondition { username: None });
    assert!(matches!(r, Err(UseCaseError::UsernameEmpty)));
    assert_eq!(UseCaseError::UsernameEmpty.message(), "username is empty");
    assert_eq!(UseCaseError::InvalidId.message(), "invalid id");
}

#[test]
fn error_messages_of_the_remaining_variants() {
    assert_eq!(UseCaseError::PasswordHashing.message(), "password hashing failed");
    assert_eq!(UseCaseError::HashedPasswordEmpty.message(), "hashed password is empty");
    assert_eq!(UseCaseError::PasswordCheck.message(), "stored password hash is invalid");
    assert_eq!(UseCaseError::InvalidStatusCode.message(), "`statusCode` is invalid.");
    assert_eq!(UseCaseError::TodoNotFound.message(), "data not found");
    let e = UseCaseError::Repository(todo_api::repository::RepositoryError { message: "down".to_string() });
    assert_eq!(e.message(), "down");
}

fn stored_alice() -> todo_api::model::User {
    todo_api::model::User::new(
        todo_api::id::Id::parse("01ARZ3NDEKTSV4RRFFQ69G5FAV").unwrap(),
        "alice@example.com".to_string(),
        "alice@example.com".to_string(),
        "$2b$12$hash".to_string(),
        "Alice".to_string(),
    )
}

#[test]
fn login_outcome_for_each_check_result() {
    let ok = todo_api::usecase::login_outcome(stored_alice(), Ok(true)).unwrap();
    assert_eq!(ok.id, "01ARZ3NDEKTSV4RRFFQ69G5FAV");
    assert_eq!(ok.fullname, "Alice");
    assert!(matches!(todo_api::usecase::login_outcome(stored_alice(), Ok(false)), Err(UseCaseError::BadPassword)));
    let broken = todo_api::usecase::login_outcome(stored_alice(), Err(bcrypt::BcryptError::InvalidCost("x".to_string())));
    assert!(matches!(broken, Err(UseCaseError::PasswordCheck)));
}

#[test]
fn login_against_a_malformed_stored_hash() {
    let mut uc = use_case();
    uc.insert_user(CreateUser::new("carol@example.com".to_string(), "not-a-hash".to_string(), "Carol".to_string()))
        .unwrap();
    let r = uc.login_user(LoginUser::new("carol@example.com".to_string(), "s3cret!pw".to_string()));
    assert!(matches!(r, Err(UseCaseError::PasswordCheck)));
}
