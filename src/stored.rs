//! Rows as a relational store holds them, and their conversion to domain
//! records; identifiers are stored as text.

use crate::id::{is_ulid_text, ulid_canonical, Id, InvalidId};
use crate::model::{NewUser, StatusV, TodoStatus, User, UserV};
use vstd::prelude::*;

verus! {

/// A row of the users table.
pub struct StoredUser {
    pub id: String,
    pub username: String,
    pub email: String,
    pub password: String,
    pub fullname: String,
}

impl StoredUser {
    /// The user of the row; fails where the stored id is not a ULID.
    pub fn to_user(self) -> (r: Result<User, InvalidId>)
        ensures
            r is Ok <==> is_ulid_text(self.id@),
            r matches Ok(u) ==> u@ == (UserV {
                id: ulid_canonical(self.id@),
                username: self.username@,
                email: self.email@,
                password: self.password@,
                fullname: self.fullname@,
            }),
    {
        let id = match Id::parse(self.id.as_str()) {
            Ok(id) => id,
            Err(e) => return Err(e),
        };
        Ok(User::new(id, self.username, self.email, self.password, self.fullname))
    }
}

/// The values of an insertion into the users table.
pub struct InsertUser {
    pub id: String,
    pub username: String,
    pub password: String,
    pub fullname: String,
}

impl InsertUser {
    pub fn from_new_user(nu: NewUser) -> (r: Self)
        ensures
            r.id@ == nu.id@,
            r.username@ == nu.username@,
            r.password@ == nu.password@,
            r.fullname@ == nu.fullname@,
    {
        InsertUser { id: nu.id.value, username: nu.username, password: nu.password, fullname: nu.fullname }
    }
}

/// A row of the todo statuses table.
pub struct StoredTodoStatus {
    pub id: String,
    pub code: String,
    pub name: String,
}

impl StoredTodoStatus {
    /// The status of the row; fails where the stored id is not a ULID.
    pub fn to_status(self) -> (r: Result<TodoStatus, InvalidId>)
        ensures
            r is Ok <==> is_ulid_text(self.id@),
            r matches Ok(s) ==> s@ == (StatusV { id: ulid_canonical(self.id@), code: self.code@, name: self.name@ }),
    {
        let id = match Id::parse(self.id.as_str()) {
            Ok(id) => id,
            Err(e) => return Err(e),
        };
        Ok(TodoStatus::new(id, self.code, self.name))
    }
}

} // verus!
