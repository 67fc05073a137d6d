use todo_api::json::{
    JsonCreateTodo, JsonCreateUser, JsonLoginUser, JsonTodoStatus, JsonUpdateTodoContents,
    JsonUpsertTodoContents, JsonUser, TodoQuery, TokenClaims, UserQuery,
};
use todo_api::memory::UserRepositoryImpl;
use todo_api::usecase::{UseCaseError, UserUseCase};
use todo_api::validate::{password_checks_pass, validate_password};
use todo_api::view::{CreateUser, TodoStatusView, UserView};
use todo_api::web::{
    access_token, authorize_current_user, found_or_error, get_auth_header, get_cookie_from_str,
    join_messages, AppError,
};

fn message_of(e: AppError) -> (u16, String) {
    let r = e.to_response();
    assert!(!r.body.result);
    assert!(r.body.data.is_none());
    (r.status, r.body.message)
}

#[test]
fn cookie_lookup_finds_the_named_pair() {
    let header = "theme=dark; access_token=abc.def.ghi ; lang=en";
    assert_eq!(get_cookie_from_str(header, "access_token"), Some("abc.def.ghi".to_string()));
    assert_eq!(get_cookie_from_str(header, "theme"), Some("dark".to_string()));
    assert_eq!(get_cookie_from_str(header, "lang"), Some("en".to_string()));
    assert_eq!(get_cookie_from_str(header, "missing"), None);
}

#[test]
fn cookie_lookup_edge_cases() {
    assert_eq!(get_cookie_from_str("a=1=2", "a"), Some("1=2".to_string()));
    assert_eq!(get_cookie_from_str("flag; a=1", "flag"), Some("".to_string()));
    assert_eq!(get_cookie_from_str("a=1; a=2", "a"), Some("1".to_string()));
    assert_eq!(get_cookie_from_str("", "a"), None);
    assert_eq!(get_cookie_from_str("\t a=x \u{3000}", "a"), Some("x".to_string()));
    assert_eq!(get_cookie_from_str("a = x", "a"), None);
}

#[test]
fn bearer_token_of_the_authorization_header() {
    assert_eq!(get_auth_header("Bearer abc"), Some("abc".to_string()));
    assert_eq!(get_auth_header("Bearer "), Some("".to_string()));
    assert_eq!(get_auth_header("bearer abc"), None);
    assert_eq!(get_auth_header("Basic abc"), None);
    assert_eq!(get_auth_header("Bear"), None);
}

#[test]
fn request_without_token_is_refused() {
    for (cookie, auth) in [
        (None, None),
        (Some("theme=dark"), None),
        (None, Some("Basic abc")),
        (Some("access_token="), Some("Bearer ")),
    ] {
        match access_token(cookie, auth) {
            Err(e @ AppError::InvalidJwt(_)) => {
                let (status, message) = message_of(e);
                assert_eq!(status, 400);
                assert_eq!(message, "Missing or expired jwt(auth_header not found).");
            }
            _ => panic!("expected an invalid token"),
        }
    }
}

#[test]
fn cookie_token_comes_before_the_bearer_token() {
    let t = access_token(Some("access_token=from-cookie"), Some("Bearer from-header")).unwrap();
    assert_eq!(t, "from-cookie");
    let t = access_token(Some("other=1"), Some("Bearer from-header")).unwrap();
    assert_eq!(t, "from-header");
}

fn claims_for(sub: &str) -> TokenClaims {
    TokenClaims { sub: sub.to_string(), username: "alice@example.com".to_string(), exp: 10, iat: 0 }
}

#[test]
fn authorization_of_decoded_claims() {
    let mut users = UserUseCase::new(UserRepositoryImpl::new());
    let created = users
        .create_user(CreateUser::new("alice@example.com".to_string(), "s3cret!pw".to_string(), "Alice".to_string()))
        .unwrap();
    let ok = authorize_current_user(&users, Ok(claims_for(&created.id))).unwrap();
    assert_eq!(ok.id, created.id);
    match authorize_current_user(&users, Err("ExpiredSignature".to_string())) {
        Err(AppError::InvalidJwt(m)) => assert_eq!(m, "ExpiredSignature"),
        _ => panic!("expected an invalid token"),
    }
    match authorize_current_user(&users, Ok(claims_for("01ARZ3NDEKTSV4RRFFQ69G5FAV"))) {
        Err(AppError::InvalidJwt(m)) => assert_eq!(m, "user not found"),
        _ => panic!("expected an unknown user"),
    }
    match authorize_current_user(&users, Ok(claims_for("garbage"))) {
        Err(AppError::InvalidJwt(m)) => assert_eq!(m, "invalid id"),
        _ => panic!("expected a malformed id"),
    }
}

#[test]
fn error_responses() {
    assert_eq!(message_of(AppError::InvalidJwt("t".to_string())), (400, "Missing or expired jwt(t).".to_string()));
    assert_eq!(
        message_of(AppError::Validation(vec!["invalid email".to_string(), "fullname is null".to_string()])),
        (400, "invalid email or fullname is null".to_string())
    );
    assert_eq!(message_of(AppError::Validation(vec![])), (400, "".to_string()));
    assert_eq!(message_of(AppError::JsonRejection("bad json".to_string())), (400, "bad json".to_string()));
    assert_eq!(message_of(AppError::ApiPathRejection("bad path".to_string())), (400, "bad path".to_string()));
    assert_eq!(
        message_of(AppError::UnknownApiVerRejection("v9".to_string())),
        (400, "Unknown api version(v9).".to_string())
    );
    assert_eq!(message_of(AppError::Error("boom".to_string())), (200, "error(boom).".to_string()));
}

#[test]
fn joining_messages() {
    assert_eq!(join_messages(&vec!["a".to_string()]), "a");
    assert_eq!(join_messages(&vec!["a".to_string(), "b".to_string(), "c".to_string()]), "a or b or c");
}

#[test]
fn lookup_route_outcomes() {
    assert_eq!(found_or_error::<u8>(Ok(Some(7))).unwrap(), 7);
    match found_or_error::<u8>(Ok(None)) {
        Err(AppError::Error(m)) => assert_eq!(m, "data not found"),
        _ => panic!("expected not found"),
    }
    match found_or_error::<u8>(Err(UseCaseError::BadPassword)) {
        Err(AppError::Error(m)) => assert_eq!(m, "bad password."),
        _ => panic!("expected the use case error"),
    }
}

#[test]
fn password_rule() {
    assert!(validate_password("abc123!x").is_ok());
    assert!(validate_password("1234567!").is_ok());
    assert!(validate_password("abcdefg!").is_err());
    assert!(validate_password("abcdef12").is_err());
    assert!(validate_password("a1!").is_err());
    assert!(validate_password("ab1!\nxyz").is_err());
    assert!(password_checks_pass(Some(true), Some(true), Some(true)).is_ok());
    assert!(password_checks_pass(Some(true), None, Some(true)).is_err());
    assert!(password_checks_pass(Some(true), Some(true), Some(false)).is_err());
}

fn view() -> UserView {
    UserView {
        id: "01ARZ3NDEKTSV4RRFFQ69G5FAV".to_string(),
        username: "alice@example.com".to_string(),
        email: "alice@example.com".to_string(),
        password: "$2b$12$hash".to_string(),
        fullname: "Alice".to_string(),
    }
}

#[test]
fn token_claims_of_a_user() {
    let c = TokenClaims::issue(&view(), 1_700_000_000, 30).unwrap();
    assert_eq!(c.sub, "01ARZ3NDEKTSV4RRFFQ69G5FAV");
    assert_eq!(c.username, "alice@example.com");
    assert_eq!(c.iat, 1_700_000_000);
    assert_eq!(c.exp, 1_700_001_800);
    assert!(TokenClaims::issue(&view(), usize::MAX - 59, 1).is_none());
    assert!(TokenClaims::issue(&view(), usize::MAX - 60, 1).is_some());
}

#[test]
fn json_records_convert() {
    let full = JsonCreateUser {
        username: Some("a@b.c".to_string()),
        password: Some("pw1!pw1!".to_string()),
        fullname: Some("Al".to_string()),
    };
    let cu = full.to_create_user().unwrap();
    assert_eq!(cu.username, "a@b.c");
    assert_eq!(cu.fullname, "Al");
    let partial = JsonCreateUser { username: None, password: Some("x".to_string()), fullname: Some("y".to_string()) };
    assert!(partial.to_create_user().is_none());
    let login = JsonLoginUser { username: Some("a@b.c".to_string()), password: Some("pw".to_string()) };
    assert_eq!(login.to_login_user().unwrap().password, "pw");
    assert!(JsonLoginUser { username: Some("a".to_string()), password: None }.to_login_user().is_none());
    let ju = JsonUser::from_view(view());
    assert_eq!(ju.id, "01ARZ3NDEKTSV4RRFFQ69G5FAV");
    assert_eq!(ju.fullname, "Alice");
    let js = JsonTodoStatus::from_view(TodoStatusView { id: "x".to_string(), code: "open".to_string(), name: "Open".to_string() });
    assert_eq!((js.code.as_str(), js.name.as_str()), ("open", "Open"));
}

#[test]
fn queries_and_bodies_convert() {
    assert_eq!(UserQuery { username: "a@b.c".to_string() }.to_condition().unwrap().username, Some("a@b.c".to_string()));
    match (UserQuery { username: "".to_string() }).to_condition() {
        Err(AppError::Error(m)) => assert_eq!(m, "username is empty"),
        _ => panic!("expected an empty username"),
    }
    assert_eq!(TodoQuery { status: Some("open".to_string()) }.to_condition().unwrap().status_code, Some("open".to_string()));
    match (TodoQuery { status: None }).to_condition() {
        Err(AppError::Error(m)) => assert_eq!(m, "status is none"),
        _ => panic!("expected a missing status"),
    }
    let ct = JsonCreateTodo { title: "t".to_string(), description: "d".to_string() }.to_create_todo();
    assert_eq!((ct.title.as_str(), ct.description.as_str()), ("t", "d"));
    let u = JsonUpdateTodoContents { title: None, description: Some("d".to_string()), status_code: None }.to_view("id".to_string());
    assert_eq!(u.id, "id");
    assert_eq!(u.description, Some("d".to_string()));
    let p = JsonUpsertTodoContents { title: "t".to_string(), description: "d".to_string(), status_code: "done".to_string() }
        .to_view("id".to_string());
    assert_eq!(p.status_code, "done");
}

#[test]
fn api_versions() {
    assert!(todo_api::web::check_api_version("v1").is_ok());
    match todo_api::web::check_api_version("v2") {
        Err(e @ AppError::UnknownApiVerRejection(_)) => {
            assert_eq!(message_of(e), (400, "Unknown api version(v2).".to_string()))
        }
        _ => panic!("expected an unknown version"),
    }
}

#[test]
fn inserting_a_user_needs_a_hash() {
    let mut users = UserUseCase::new(UserRepositoryImpl::new());
    let r = users.insert_user(CreateUser::new("a@b.c".to_string(), "".to_string(), "A".to_string()));
    assert!(matches!(r, Err(UseCaseError::HashedPasswordEmpty)));
    let v = users.insert_user(CreateUser::new("a@b.c".to_string(), "$2b$12$h".to_string(), "A".to_string())).unwrap();
    assert_eq!(v.password, "$2b$12$h");
    assert_eq!(v.email, "a@b.c");
    assert_eq!(users.get_user(v.id.clone()).unwrap().unwrap().fullname, "A");
}

#[test]
fn gate_outcome_for_each_lookup_result() {
    let ok = todo_api::web::authorize_outcome(Ok(Some(view()))).unwrap();
    assert_eq!(ok.id, "01ARZ3NDEKTSV4RRFFQ69G5FAV");
    match todo_api::web::authorize_outcome(Ok(None)) {
        Err(AppError::InvalidJwt(m)) => assert_eq!(m, "user not found"),
        _ => panic!("expected an unknown user"),
    }
    let down = UseCaseError::Repository(todo_api::repository::RepositoryError { message: "db down".to_string() });
    match todo_api::web::authorize_outcome(Err(down)) {
        Err(AppError::InvalidJwt(m)) => assert_eq!(m, "db down"),
        _ => panic!("expected the storage failure"),
    }
}

#[test]
fn search_messages() {
    assert_eq!(todo_api::web::find_todo_message(0), "todo not found.");
    assert_eq!(todo_api::web::find_todo_message(3), "success");
}
