//! The records that the web layer reads from and writes to JSON bodies.

use crate::view::{
    CreateTodo, CreateUser, LoginUser, SearchTodoCondition, SearchUserCondition, TodoStatusView,
    UpdateTodoView, UpsertTodoView, UserView,
};
use crate::web::AppError;
use crate::model::UserV;
use vstd::prelude::*;

verus! {

/// The claims of a session token.
pub struct TokenClaims {
    /// The id of the user.
    pub sub: String,
    pub username: String,
    /// Expiry, in seconds since the Unix epoch.
    pub exp: usize,
    /// Issue time, in seconds since the Unix epoch.
    pub iat: usize,
}

impl TokenClaims {
    /// The claims of a token issued to `user` at `now` that lasts `duration_minutes`;
    /// `None` where the expiry does not fit.
    pub fn issue(user: &UserView, now: usize, duration_minutes: usize) -> (r: Option<TokenClaims>)
        ensures
            r is None <==> now + 60 * duration_minutes > usize::MAX,
            r matches Some(c) ==> {
                &&& c.sub@ == user.id@
                &&& c.username@ == user.username@
                &&& c.iat == now
                &&& c.exp == now + 60 * duration_minutes
            },
    {
        if duration_minutes > (usize::MAX - now) / 60 {
            return None;
        }
        let exp = now + 60 * duration_minutes;
        Some(TokenClaims { sub: user.id.clone(), username: user.username.clone(), exp, iat: now })
    }
}

/// The body of a registration request.
pub struct JsonCreateUser {
    pub username: Option<String>,
    pub password: Option<String>,
    pub fullname: Option<String>,
}

impl JsonCreateUser {
    /// The registration, when every field is present.
    pub fn to_create_user(self) -> (r: Option<CreateUser>)
        ensures
            r is Some <==> (self.username is Some && self.password is Some && self.fullname is Some),
            r matches Some(c) ==> Some(c.username) == self.username && Some(c.password) == self.password
                && Some(c.fullname) == self.fullname,
    {
        match (self.username, self.password, self.fullname) {
            (Some(username), Some(password), Some(fullname)) => Some(CreateUser::new(username, password, fullname)),
            _ => None,
        }
    }
}

/// The body of a login request.
pub struct JsonLoginUser {
    pub username: Option<String>,
    pub password: Option<String>,
}

impl JsonLoginUser {
    /// The credentials, when both fields are present.
    pub fn to_login_user(self) -> (r: Option<LoginUser>)
        ensures
            r is Some <==> (self.username is Some && self.password is Some),
            r matches Some(c) ==> Some(c.username) == self.username && Some(c.password) == self.password,
    {
        match (self.username, self.password) {
            (Some(username), Some(password)) => Some(LoginUser::new(username, password)),
            _ => None,
        }
    }
}

/// A user as written to a response.
pub struct JsonUser {
    pub id: String,
    pub username: String,
    pub email: String,
    pub password: String,
    pub fullname: String,
}

impl View for JsonUser {
    type V = UserV;

    open spec fn view(&self) -> UserV {
        UserV {
            id: self.id@,
            username: self.username@,
            email: self.email@,
            password: self.password@,
            fullname: self.fullname@,
        }
    }
}

impl JsonUser {
    pub fn from_view(uv: UserView) -> (r: Self)
        ensures
            r@ == uv@,
    {
        JsonUser { id: uv.id, username: uv.username, email: uv.email, password: uv.password, fullname: uv.fullname }
    }
}

/// The query of a search by username.
pub struct UserQuery {
    pub username: String,
}

impl UserQuery {
    /// The search; an empty username is refused.
    pub fn to_condition(self) -> (r: Result<SearchUserCondition, AppError>)
        ensures
            self.username@.len() == 0 <==> r is Err,
            r matches Err(AppError::Error(m)) ==> m@ == "username is empty"@,
            r matches Ok(c) ==> c.username == Some(self.username),
            r is Err ==> r matches Err(AppError::Error(_)),
    {
        if self.username.as_str().unicode_len() == 0 {
            return Err(AppError::Error(String::from_str("username is empty")));
        }
        Ok(SearchUserCondition { username: Some(self.username) })
    }
}

/// The query of a search for todos.
pub struct TodoQuery {
    pub status: Option<String>,
}

impl TodoQuery {
    /// The search; a query must name a status.
    pub fn to_condition(self) -> (r: Result<SearchTodoCondition, AppError>)
        ensures
            self.status is None <==> r is Err,
            r matches Err(AppError::Error(m)) ==> m@ == "status is none"@,
            r is Err ==> r matches Err(AppError::Error(_)),
            r matches Ok(c) ==> c.status_code == self.status,
    {
        match self.status {
            Some(code) => Ok(SearchTodoCondition { status_code: Some(code) }),
            None => Err(AppError::Error(String::from_str("status is none"))),
        }
    }
}

/// The body of a request to create a todo.
pub struct JsonCreateTodo {
    pub title: String,
    pub description: String,
}

impl JsonCreateTodo {
    pub fn to_create_todo(self) -> (r: CreateTodo)
        ensures
            r.title == self.title,
            r.description == self.description,
    {
        CreateTodo::new(self.title, self.description)
    }
}

/// The body of a partial update of a todo.
pub struct JsonUpdateTodoContents {
    pub title: Option<String>,
    pub description: Option<String>,
    pub status_code: Option<String>,
}

impl JsonUpdateTodoContents {
    /// The update of the todo with the id of the path.
    pub fn to_view(self, id: String) -> (r: UpdateTodoView)
        ensures
            r.id == id,
            r.title == self.title,
            r.description == self.description,
            r.status_code == self.status_code,
    {
        UpdateTodoView::new(id, self.title, self.description, self.status_code)
    }
}

/// The body of a full replacement of a todo.
pub struct JsonUpsertTodoContents {
    pub title: String,
    pub description: String,
    pub status_code: String,
}

impl JsonUpsertTodoContents {
    /// The replacement of the todo with the id of the path.
    pub fn to_view(self, id: String) -> (r: UpsertTodoView)
        ensures
            r.id == id,
            r.title == self.title,
            r.description == self.description,
            r.status_code == self.status_code,
    {
        UpsertTodoView::new(id, self.title, self.description, self.status_code)
    }
}

/// A todo status as written to a response.
pub struct JsonTodoStatus {
    pub code: String,
    pub name: String,
}

impl JsonTodoStatus {
    pub fn from_view(sv: TodoStatusView) -> (r: Self)
        ensures
            r.code@ == sv.code@,
            r.name@ == sv.name@,
    {
        JsonTodoStatus { code: sv.code, name: sv.name }
    }
}

} // verus!
