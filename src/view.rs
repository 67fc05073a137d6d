//! The records that use cases take from and hand to the web layer.

use crate::model::{StatusV, Todo, TodoStatus, TodoV, User, UserV};
use vstd::prelude::*;

verus! {

/// A user as handed out; `password` is the stored hash.
pub struct UserView {
    pub id: String,
    pub username: String,
    pub email: String,
    pub password: String,
    pub fullname: String,
}

impl View for UserView {
    type V = UserV;

    open spec fn view(&self) -> UserV {
        UserV {
            id: self.id@,
            username: self.username@,
            email: self.email@,
            password: self.password@,
            fullname: self.fullname@,
        }
    }
}

impl UserView {
    /// The view of a stored user.
    pub fn from_user(user: User) -> (r: Self)
        ensures
            r@ == user@,
    {
        UserView {
            id: user.id.value,
            username: user.username,
            email: user.email,
            password: user.password,
            fullname: user.fullname,
        }
    }
}

/// A todo status as handed out.
pub struct TodoStatusView {
    pub id: String,
    pub code: String,
    pub name: String,
}

impl View for TodoStatusView {
    type V = StatusV;

    open spec fn view(&self) -> StatusV {
        StatusV { id: self.id@, code: self.code@, name: self.name@ }
    }
}

impl TodoStatusView {
    pub fn from_status(status: TodoStatus) -> (r: Self)
        ensures
            r@ == status@,
    {
        TodoStatusView { id: status.id.value, code: status.code, name: status.name }
    }
}

/// A todo as handed out; times are microseconds since the Unix epoch.
pub struct TodoView {
    pub id: String,
    pub title: String,
    pub description: String,
    pub status: TodoStatusView,
    pub created_at: i64,
    pub updated_at: i64,
}

impl View for TodoView {
    type V = TodoV;

    open spec fn view(&self) -> TodoV {
        TodoV {
            id: self.id@,
            title: self.title@,
            description: self.description@,
            status: self.status@,
            created_at: self.created_at,
            updated_at: self.updated_at,
        }
    }
}

impl TodoView {
    pub fn from_todo(todo: Todo) -> (r: Self)
        ensures
            r@ == todo@,
    {
        TodoView {
            id: todo.id.value,
            title: todo.title,
            description: todo.description,
            status: TodoStatusView::from_status(todo.status),
            created_at: todo.created_at,
            updated_at: todo.updated_at,
        }
    }
}

/// A request to register a user.
pub struct CreateUser {
    pub username: String,
    pub password: String,
    pub fullname: String,
}

impl CreateUser {
    pub fn new(username: String, password: String, fullname: String) -> (r: Self)
        ensures
            r.username == username,
            r.password == password,
            r.fullname == fullname,
    {
        CreateUser { username, password, fullname }
    }
}

/// Credentials offered at login.
pub struct LoginUser {
    pub username: String,
    pub password: String,
}

impl LoginUser {
    pub fn new(username: String, password: String) -> (r: Self)
        ensures
            r.username == username,
            r.password == password,
    {
        LoginUser { username, password }
    }
}

/// A search for one user by username.
pub struct SearchUserCondition {
    pub username: Option<String>,
}

/// A request to create a todo.
pub struct CreateTodo {
    pub title: String,
    pub description: String,
}

impl CreateTodo {
    pub fn new(title: String, description: String) -> (r: Self)
        ensures
            r.title == title,
            r.description == description,
    {
        CreateTodo { title, description }
    }
}

/// A partial update of a todo: fields left `None` keep their value.
pub struct UpdateTodoView {
    pub id: String,
    pub title: Option<String>,
    pub description: Option<String>,
    pub status_code: Option<String>,
}

impl UpdateTodoView {
    pub fn new(id: String, title: Option<String>, description: Option<String>, status_code: Option<String>) -> (r: Self)
        ensures
            r.id == id,
            r.title == title,
            r.description == description,
            r.status_code == status_code,
    {
        UpdateTodoView { id, title, description, status_code }
    }
}

/// A full replacement of a todo, or its creation under the given id.
pub struct UpsertTodoView {
    pub id: String,
    pub title: String,
    pub description: String,
    pub status_code: String,
}

impl UpsertTodoView {
    pub fn new(id: String, title: String, description: String, status_code: String) -> (r: Self)
        ensures
            r.id == id,
            r.title == title,
            r.description == description,
            r.status_code == status_code,
    {
        UpsertTodoView { id, title, description, status_code }
    }
}

/// A search for todos, optionally by status code.
pub struct SearchTodoCondition {
    pub status_code: Option<String>,
}

} // verus!
