//! Domain records: users, todos and todo statuses, with their views.

use crate::id::Id;
use vstd::prelude::*;

verus! {

/// The view of an optional string.
pub open spec fn opt_view(o: Option<String>) -> Option<Seq<char>> {
    match o {
        Some(s) => Some(s@),
        None => None,
    }
}

/// Marks the identifiers of users.
pub struct UserTag;

/// Marks the identifiers of todos.
pub struct TodoTag;

/// Marks the identifiers of todo statuses.
pub struct StatusTag;

/// The supplied value, or the current one where none was supplied.
pub open spec fn or_keep<A>(supplied: Option<A>, current: A) -> A {
    match supplied {
        Some(v) => v,
        None => current,
    }
}

/// A user as the contracts see it.
pub struct UserV {
    pub id: Seq<char>,
    pub username: Seq<char>,
    pub email: Seq<char>,
    pub password: Seq<char>,
    pub fullname: Seq<char>,
}

/// A todo status as the contracts see it.
pub struct StatusV {
    pub id: Seq<char>,
    pub code: Seq<char>,
    pub name: Seq<char>,
}

/// A todo as the contracts see it; times are microseconds since the Unix epoch.
pub struct TodoV {
    pub id: Seq<char>,
    pub title: Seq<char>,
    pub description: Seq<char>,
    pub status: StatusV,
    pub created_at: i64,
    pub updated_at: i64,
}

/// A registered user; `password` holds the bcrypt hash.
pub struct User {
    pub id: Id<UserTag>,
    pub username: String,
    pub email: String,
    pub password: String,
    pub fullname: String,
}

impl View for User {
    type V = UserV;

    open spec fn view(&self) -> UserV {
        UserV {
            id: self.id@,
            username: self.username@,
            email: self.email@,
            password: self.password@,
            fullname: self.fullname@,
        }
    }
}

impl User {
    pub fn new(id: Id<UserTag>, username: String, email: String, password: String, fullname: String) -> (r: Self)
        ensures
            r@ == (UserV { id: id@, username: username@, email: email@, password: password@, fullname: fullname@ }),
            r.id.wf() == id.wf(),
    {
        User { id, username, email, password, fullname }
    }
}

impl User {
    pub fn clone_user(&self) -> (r: Self)
        ensures
            r@ == self@,
    {
        User {
            id: self.id.clone_id(),
            username: self.username.clone(),
            email: self.email.clone(),
            password: self.password.clone(),
            fullname: self.fullname.clone(),
        }
    }
}

/// A user about to be stored.
pub struct NewUser {
    pub id: Id<UserTag>,
    pub username: String,
    pub password: String,
    pub fullname: String,
}

impl NewUser {
    pub fn new(id: Id<UserTag>, username: String, password: String, fullname: String) -> (r: Self)
        ensures
            r.id@ == id@,
            r.id.wf() == id.wf(),
            r.username@ == username@,
            r.password@ == password@,
            r.fullname@ == fullname@,
    {
        NewUser { id, username, password, fullname }
    }

    /// The stored user that this record becomes: the username doubles as the e-mail.
    pub open spec fn stored(&self) -> UserV {
        UserV {
            id: self.id@,
            username: self.username@,
            email: self.username@,
            password: self.password@,
            fullname: self.fullname@,
        }
    }
}

/// A status that a todo can be in, looked up by its short code.
pub struct TodoStatus {
    pub id: Id<StatusTag>,
    pub code: String,
    pub name: String,
}

impl View for TodoStatus {
    type V = StatusV;

    open spec fn view(&self) -> StatusV {
        StatusV { id: self.id@, code: self.code@, name: self.name@ }
    }
}

impl TodoStatus {
    pub fn new(id: Id<StatusTag>, code: String, name: String) -> (r: Self)
        ensures
            r@ == (StatusV { id: id@, code: code@, name: name@ }),
    {
        TodoStatus { id, code, name }
    }

    pub fn clone_status(&self) -> (r: Self)
        ensures
            r@ == self@,
    {
        TodoStatus { id: self.id.clone_id(), code: self.code.clone(), name: self.name.clone() }
    }
}

/// A stored todo with its status joined in.
pub struct Todo {
    pub id: Id<TodoTag>,
    pub title: String,
    pub description: String,
    pub status: TodoStatus,
    pub created_at: i64,
    pub updated_at: i64,
}

impl View for Todo {
    type V = TodoV;

    open spec fn view(&self) -> TodoV {
        TodoV {
            id: self.id@,
            title: self.title@,
            description: self.description@,
            status: self.status@,
            created_at: self.created_at,
            updated_at: self.updated_at,
        }
    }
}

impl Todo {
    pub fn clone_todo(&self) -> (r: Self)
        ensures
            r@ == self@,
    {
        Todo {
            id: self.id.clone_id(),
            title: self.title.clone(),
            description: self.description.clone(),
            status: self.status.clone_status(),
            created_at: self.created_at,
            updated_at: self.updated_at,
        }
    }
}

/// A todo about to be stored; it gets the default status.
pub struct NewTodo {
    pub id: Id<TodoTag>,
    pub title: String,
    pub description: String,
}

impl NewTodo {
    pub fn new(id: Id<TodoTag>, title: String, description: String) -> (r: Self)
        ensures
            r.id@ == id@,
            r.id.wf() == id.wf(),
            r.title@ == title@,
            r.description@ == description@,
    {
        NewTodo { id, title, description }
    }
}

/// A partial update: each field that is `None` keeps its stored value.
pub struct UpdateTodo {
    pub id: Id<TodoTag>,
    pub title: Option<String>,
    pub description: Option<String>,
    pub status: Option<TodoStatus>,
}

impl UpdateTodo {
    pub fn new(id: Id<TodoTag>, title: Option<String>, description: Option<String>, status: Option<TodoStatus>) -> (r: Self)
        ensures
            r.id@ == id@,
            opt_view(r.title) == opt_view(title),
            opt_view(r.description) == opt_view(description),
            r.status == status,
    {
        UpdateTodo { id, title, description, status }
    }

    /// The todo `t` after this update: supplied fields replace stored ones.
    pub open spec fn apply(&self, t: TodoV, now: i64) -> TodoV {
        TodoV {
            id: t.id,
            title: match self.title { Some(s) => s@, None => t.title },
            description: match self.description { Some(s) => s@, None => t.description },
            status: match self.status { Some(s) => s@, None => t.status },
            created_at: t.created_at,
            updated_at: now,
        }
    }
}

/// A full replacement, or an insertion when no todo has the id.
pub struct UpsertTodo {
    pub id: Id<TodoTag>,
    pub title: String,
    pub description: String,
    pub status: TodoStatus,
}

impl UpsertTodo {
    pub fn new(id: Id<TodoTag>, title: String, description: String, status: TodoStatus) -> (r: Self)
        ensures
            r.id@ == id@,
            r.title@ == title@,
            r.description@ == description@,
            r.status@ == status@,
    {
        UpsertTodo { id, title, description, status }
    }
}

} // verus!
