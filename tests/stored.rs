use todo_api::id::Id;
use todo_api::model::NewUser;
use todo_api::stored::{InsertUser, StoredTodoStatus, StoredUser};

#[test]
fn stored_user_becomes_a_user() {
    let row = StoredUser {
        id: "01arz3ndektsv4rrffq69g5fav".to_string(),
        username: "alice@example.com".to_string(),
        email: "alice@example.com".to_string(),
        password: "$2b$12$x".to_string(),
        fullname: "Alice".to_string(),
    };
    let user = row.to_user().unwrap();
    assert_eq!(user.id.value, "01ARZ3NDEKTSV4RRFFQ69G5FAV");
    assert_eq!(user.fullname, "Alice");
    let bad = StoredUser {
        id: "17".to_string(),
        username: String::new(),
        email: String::new(),
        password: String::new(),
        fullname: String::new(),
    };
    assert!(bad.to_user().is_err());
}

#[test]
fn stored_status_becomes_a_status() {
    let row = StoredTodoStatus { id: "01ARZ3NDEKTSV4RRFFQ69G5FAV".to_string(), code: "done".to_string(), name: "Done".to_string() };
    let s = row.to_status().unwrap();
    assert_eq!(s.code, "done");
    assert!(StoredTodoStatus { id: "x".to_string(), code: String::new(), name: String::new() }.to_status().is_err());
}

#[test]
fn new_user_becomes_an_insertion() {
    let id = Id::parse("01ARZ3NDEKTSV4RRFFQ69G5FAV").unwrap();
    let nu = NewUser::new(id, "bob@example.com".to_string(), "h".to_string(), "Bob".to_string());
    let row = InsertUser::from_new_user(nu);
    assert_eq!(row.id, "01ARZ3NDEKTSV4RRFFQ69G5FAV");
    assert_eq!(row.username, "bob@example.com");
    assert_eq!(row.fullname, "Bob");
}
