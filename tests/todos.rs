use todo_api::memory::{TodoRepositoryImpl, TodoStatusRepositoryImpl};
use todo_api::modules::RepositoriesModule;
use todo_api::usecase::{TodoUseCase, UseCaseError};
use todo_api::view::{CreateTodo, SearchTodoCondition, UpdateTodoView, UpsertTodoView};

fn use_case() -> TodoUseCase<TodoRepositoryImpl, TodoStatusRepositoryImpl> {
    RepositoriesModule::new().into_use_cases().1
}

fn create(uc: &mut TodoUseCase<TodoRepositoryImpl, TodoStatusRepositoryImpl>, title: &str, description: &str) -> String {
    uc.create_todo(CreateTodo::new(title.to_string(), description.to_string())).unwrap().id
}

#[test]
fn created_todo_is_found_with_the_default_status() {
    let mut uc = use_case();
    let created = uc
        .create_todo(CreateTodo::new("Buy milk".to_string(), "two litres".to_string()))
        .unwrap();
    assert_eq!(created.id.len(), 26);
    assert_eq!(created.status.code, "open");
    assert_eq!(created.status.name, "Open");
    assert_eq!(created.created_at, created.updated_at);
    let found = uc.get_todo(created.id.clone()).unwrap().unwrap();
    assert_eq!(found.id, created.id);
    assert_eq!(found.title, "Buy milk");
    assert_eq!(found.description, "two litres");
    assert_eq!(found.status.code, "open");
    assert_eq!(found.status.id, created.status.id);
}

#[test]
fn get_todo_of_unknown_or_malformed_id() {
    let uc = use_case();
    assert!(uc.get_todo("01ARZ3NDEKTSV4RRFFQ69G5FAV".to_string()).unwrap().is_none());
    assert!(matches!(uc.get_todo("xyz".to_string()), Err(UseCaseError::InvalidId)));
}

#[test]
fn update_with_only_a_title_keeps_the_rest() {
    let mut uc = use_case();
    let id = create(&mut uc, "Buy milk", "two litres");
    let before = uc.get_todo(id.clone()).unwrap().unwrap();
    let updated = uc
        .update_todo(UpdateTodoView::new(id.clone(), Some("Buy oat milk".to_string()), None, None))
        .unwrap();
    assert_eq!(updated.id, id);
    assert_eq!(updated.title, "Buy oat milk");
    assert_eq!(updated.description, "two litres");
    assert_eq!(updated.status.code, "open");
    assert_eq!(updated.created_at, before.created_at);
    assert!(updated.updated_at >= before.updated_at);
    let found = uc.get_todo(id).unwrap().unwrap();
    assert_eq!(found.title, "Buy oat milk");
    assert_eq!(found.description, "two litres");
}

#[test]
fn update_status_by_code() {
    let mut uc = use_case();
    let id = create(&mut uc, "Write report", "quarterly");
    let updated = uc
        .update_todo(UpdateTodoView::new(id.clone(), None, Some("yearly".to_string()), Some("done".to_string())))
        .unwrap();
    assert_eq!(updated.title, "Write report");
    assert_eq!(updated.description, "yearly");
    assert_eq!(updated.status.code, "done");
    assert_eq!(updated.status.name, "Done");
}

#[test]
fn update_errors() {
    let mut uc = use_case();
    let id = create(&mut uc, "Write report", "quarterly");
    let bad_code = uc.update_todo(UpdateTodoView::new(id.clone(), None, None, Some("archived".to_string())));
    assert!(matches!(bad_code, Err(UseCaseError::InvalidStatusCode)));
    let missing = uc.update_todo(UpdateTodoView::new(
        "01ARZ3NDEKTSV4RRFFQ69G5FAV".to_string(),
        Some("x".to_string()),
        None,
        None,
    ));
    assert!(matches!(missing, Err(UseCaseError::TodoNotFound)));
    let bad_id = uc.update_todo(UpdateTodoView::new("nope".to_string(), None, None, None));
    assert!(matches!(bad_id, Err(UseCaseError::InvalidId)));
    let unchanged = uc.get_todo(id).unwrap().unwrap();
    assert_eq!(unchanged.title, "Write report");
    assert_eq!(unchanged.status.code, "open");
}

#[test]
fn upsert_replaces_every_field() {
    let mut uc = use_case();
    let id = create(&mut uc, "Buy milk", "two litres");
    let before = uc.get_todo(id.clone()).unwrap().unwrap();
    let replaced = uc
        .upsert_todo(UpsertTodoView::new(id.clone(), "Walk dog".to_string(), "park".to_string(), "done".to_string()))
        .unwrap();
    assert_eq!(replaced.id, id);
    assert_eq!(replaced.title, "Walk dog");
    assert_eq!(replaced.description, "park");
    assert_eq!(replaced.status.code, "done");
    assert_eq!(replaced.created_at, before.created_at);
    let found = uc.get_todo(id).unwrap().unwrap();
    assert_eq!(found.title, "Walk dog");
    assert_eq!(found.description, "park");
    assert_eq!(found.status.code, "done");
}

#[test]
fn upsert_of_a_new_id_creates_the_todo() {
    let mut uc = use_case();
    let id = "01ARZ3NDEKTSV4RRFFQ69G5FAV".to_string();
    let created = uc
        .upsert_todo(UpsertTodoView::new(id.to_lowercase(), "Call mum".to_string(), "sunday".to_string(), "open".to_string()))
        .unwrap();
    assert_eq!(created.id, id);
    assert_eq!(created.created_at, created.updated_at);
    let found = uc.get_todo(id).unwrap().unwrap();
    assert_eq!(found.title, "Call mum");
    let bad = uc.upsert_todo(UpsertTodoView::new(
        "01ARZ3NDEKTSV4RRFFQ69G5FAW".to_string(),
        "t".to_string(),
        "d".to_string(),
        "unknown".to_string(),
    ));
    assert!(matches!(bad, Err(UseCaseError::InvalidStatusCode)));
}

#[test]
fn delete_returns_the_todo_once() {
    let mut uc = use_case();
    let id = create(&mut uc, "Buy milk", "two litres");
    let keep = create(&mut uc, "Keep me", "stays");
    let deleted = uc.delete_todo(id.clone()).unwrap().unwrap();
    assert_eq!(deleted.id, id);
    assert_eq!(deleted.title, "Buy milk");
    assert!(uc.delete_todo(id.clone()).unwrap().is_none());
    assert!(uc.get_todo(id).unwrap().is_none());
    assert!(uc.get_todo(keep).unwrap().is_some());
    assert!(matches!(uc.delete_todo("bad".to_string()), Err(UseCaseError::InvalidId)));
}

#[test]
fn find_by_status_in_creation_order() {
    let mut uc = use_case();
    let a = create(&mut uc, "first", "a");
    let b = create(&mut uc, "second", "b");
    let c = create(&mut uc, "third", "c");
    uc.update_todo(UpdateTodoView::new(b.clone(), None, None, Some("done".to_string()))).unwrap();
    let open = uc.find_todo(SearchTodoCondition { status_code: Some("open".to_string()) }).unwrap();
    let ids: Vec<String> = open.iter().map(|t| t.id.clone()).collect();
    assert_eq!(ids, vec![a.clone(), c.clone()]);
    let done = uc.find_todo(SearchTodoCondition { status_code: Some("done".to_string()) }).unwrap();
    assert_eq!(done.len(), 1);
    assert_eq!(done[0].id, b);
    let all = uc.find_todo(SearchTodoCondition { status_code: None }).unwrap();
    let all_ids: Vec<String> = all.iter().map(|t| t.id.clone()).collect();
    assert_eq!(all_ids, vec![a, b, c]);
    let bad = uc.find_todo(SearchTodoCondition { status_code: Some("later".to_string()) });
    assert!(matches!(bad, Err(UseCaseError::InvalidStatusCode)));
}

#[test]
fn find_in_an_empty_store() {
    let uc = use_case();
    assert!(uc.find_todo(SearchTodoCondition { status_code: None }).unwrap().is_empty());
}

#[test]
fn upserting_twice_gives_the_same_todo() {
    let mut uc = use_case();
    let id = "01ARZ3NDEKTSV4RRFFQ69G5FAV".to_string();
    let payload = || UpsertTodoView::new(id.clone(), "Plan trip".to_string(), "june".to_string(), "done".to_string());
    let first = uc.upsert_todo(payload()).unwrap();
    let second = uc.upsert_todo(payload()).unwrap();
    assert_eq!(second.id, first.id);
    assert_eq!(second.title, first.title);
    assert_eq!(second.description, first.description);
    assert_eq!(second.status.id, first.status.id);
    assert_eq!(second.created_at, first.created_at);
    assert_eq!(uc.find_todo(SearchTodoCondition { status_code: None }).unwrap().len(), 1);
}

#[test]
fn search_results_are_ordered_by_creation_time() {
    let mut uc = use_case();
    for i in 0..5 {
        create(&mut uc, &format!("todo {i}"), "x");
    }
    let all = uc.find_todo(SearchTodoCondition { status_code: None }).unwrap();
    assert_eq!(all.len(), 5);
    for pair in all.windows(2) {
        assert!(pair[0].created_at <= pair[1].created_at);
    }
    assert_eq!(all[0].title, "todo 0");
    assert_eq!(all[4].title, "todo 4");
}

#[test]
fn unknown_status_code_is_reported_before_a_bad_id() {
    let mut uc = use_case();
    let r = uc.upsert_todo(UpsertTodoView::new("bad".to_string(), "t".to_string(), "d".to_string(), "nope".to_string()));
    assert!(matches!(r, Err(UseCaseError::InvalidStatusCode)));
    let r = uc.upsert_todo(UpsertTodoView::new("bad".to_string(), "t".to_string(), "d".to_string(), "open".to_string()));
    assert!(matches!(r, Err(UseCaseError::InvalidId)));
    let r = uc.update_todo(UpdateTodoView::new("bad".to_string(), None, None, Some("nope".to_string())));
    assert!(matches!(r, Err(UseCaseError::InvalidStatusCode)));
}
