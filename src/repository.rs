//! Persistence contracts for users, todos and todo statuses.
//!
//! Each table is seen as the sequence of its rows in the order they were
//! created. A failing call leaves every table as it was.

use crate::id::Id;
use crate::model::{
    NewTodo, NewUser, StatusV, Todo, TodoStatus, TodoTag, TodoV, UpdateTodo, UpsertTodo,
    User, UserTag, UserV,
};
use vstd::prelude::*;

verus! {

/// The users as the contracts see them: the rows in the order they were stored.
pub type UserRows = Seq<UserV>;

/// The todos as the contracts see them: the rows in the order they were created.
pub type TodoRows = Seq<TodoV>;

/// The statuses as the contracts see them.
pub type StatusRows = Seq<StatusV>;

/// A failure of the storage behind a repository.
#[derive(Debug)]
pub struct RepositoryError {
    pub message: String,
}

/// No two users share an id.
pub open spec fn unique_user_ids(rows: Seq<UserV>) -> bool {
    forall|i: int, j: int| 0 <= i < rows.len() && 0 <= j < rows.len() && i != j ==> rows[i].id != rows[j].id
}

/// No two todos share an id.
pub open spec fn unique_todo_ids(rows: Seq<TodoV>) -> bool {
    forall|i: int, j: int| 0 <= i < rows.len() && 0 <= j < rows.len() && i != j ==> rows[i].id != rows[j].id
}

/// Some user has this id.
pub open spec fn has_user_id(rows: Seq<UserV>, id: Seq<char>) -> bool {
    exists|i: int| 0 <= i < rows.len() && #[trigger] rows[i].id == id
}

/// Some user has this username.
pub open spec fn has_username(rows: Seq<UserV>, username: Seq<char>) -> bool {
    exists|i: int| 0 <= i < rows.len() && #[trigger] rows[i].username == username
}

/// Some todo has this id.
pub open spec fn has_todo_id(rows: Seq<TodoV>, id: Seq<char>) -> bool {
    exists|i: int| 0 <= i < rows.len() && #[trigger] rows[i].id == id
}

/// The todos are in order of creation time.
pub open spec fn created_in_order(rows: Seq<TodoV>) -> bool {
    forall|i: int, j: int| 0 <= i < j < rows.len() ==> rows[i].created_at <= rows[j].created_at
}

/// Whether a todo passes the status filter of a search; no filter passes all.
pub open spec fn status_filter(status: Option<StatusV>) -> spec_fn(TodoV) -> bool {
    |t: TodoV|
        match status {
            Some(s) => t.status.id == s.id,
            None => true,
        }
}

/// With no status filter a search keeps every todo.
pub proof fn lemma_no_filter_keeps_all(rows: Seq<TodoV>)
    ensures
        rows.filter(status_filter(None)) == rows,
    decreases rows.len(),
{
    reveal(Seq::filter);
    if rows.len() > 0 {
        lemma_no_filter_keeps_all(rows.drop_last());
        assert(rows.drop_last().push(rows.last()) =~= rows);
    }
}

pub open spec fn status_view(status: Option<TodoStatus>) -> Option<StatusV> {
    match status {
        Some(s) => Some(s@),
        None => None,
    }
}

/// The stored users.
pub trait UserRepository {
    spec fn users(&self) -> UserRows;

    /// The storage never fails: every call answers.
    spec fn infallible(&self) -> bool;

    fn get_user(&self, id: &Id<UserTag>) -> (r: Result<Option<User>, RepositoryError>)
        ensures
            self.infallible() ==> r is Ok,
            r matches Ok(Some(u)) ==> self.users().contains(u@) && u@.id == id@,
            r matches Ok(None) ==> !has_user_id(self.users(), id@),
    ;

    fn get_user_by_username(&self, username: &str) -> (r: Result<Option<User>, RepositoryError>)
        ensures
            self.infallible() ==> r is Ok,
            r matches Ok(Some(u)) ==> self.users().contains(u@) && u@.username == username@,
            r matches Ok(None) ==> !has_username(self.users(), username@),
    ;

    /// Stores a new user; its e-mail is its username.
    fn insert(&mut self, source: NewUser) -> (r: Result<User, RepositoryError>)
        ensures
            final(self).infallible() == old(self).infallible(),
            old(self).infallible() ==> (r is Ok <==> !has_user_id(old(self).users(), source.id@)),
            r matches Ok(u) ==> {
                &&& !has_user_id(old(self).users(), source.id@)
                &&& u@ == source.stored()
                &&& final(self).users() == old(self).users().push(u@)
            },
            r is Err ==> final(self).users() == old(self).users(),
    ;
}

/// The stored todos.
pub trait TodoRepository {
    spec fn todos(&self) -> TodoRows;

    /// The status that a new todo gets.
    spec fn default_status(&self) -> StatusV;

    /// The storage never fails: every call answers.
    spec fn infallible(&self) -> bool;

    fn get(&self, id: &Id<TodoTag>) -> (r: Result<Option<Todo>, RepositoryError>)
        ensures
            self.infallible() ==> r is Ok,
            r matches Ok(Some(t)) ==> self.todos().contains(t@) && t@.id == id@,
            r matches Ok(None) ==> !has_todo_id(self.todos(), id@),
    ;

    /// The todos in a status, or all of them, in the order they were created.
    fn find(&self, status: Option<TodoStatus>) -> (r: Result<Vec<Todo>, RepositoryError>)
        ensures
            self.infallible() ==> r is Ok,
            created_in_order(self.todos()) ==> (r matches Ok(v) ==> created_in_order(
                v@.map_values(|t: Todo| t@),
            )),
            r matches Ok(v) ==> v@.map_values(|t: Todo| t@) == self.todos().filter(
                status_filter(status_view(status)),
            ),
    ;

    fn insert(&mut self, source: NewTodo) -> (r: Result<Todo, RepositoryError>)
        ensures
            final(self).default_status() == old(self).default_status(),
            final(self).infallible() == old(self).infallible(),
            created_in_order(old(self).todos()) ==> created_in_order(final(self).todos()),
            old(self).infallible() ==> (r is Ok <==> !has_todo_id(old(self).todos(), source.id@)),
            r matches Ok(t) ==> {
                &&& !has_todo_id(old(self).todos(), source.id@)
                &&& t@.id == source.id@
                &&& t@.title == source.title@
                &&& t@.description == source.description@
                &&& t@.status == old(self).default_status()
                &&& t@.created_at == t@.updated_at
                &&& final(self).todos() == old(self).todos().push(t@)
            },
            r is Err ==> final(self).todos() == old(self).todos(),
    ;

    /// Applies a partial update to the todo with the id, if there is one.
    fn update(&mut self, source: UpdateTodo) -> (r: Result<Option<Todo>, RepositoryError>)
        ensures
            final(self).default_status() == old(self).default_status(),
            final(self).infallible() == old(self).infallible(),
            created_in_order(old(self).todos()) ==> created_in_order(final(self).todos()),
            old(self).infallible() ==> r is Ok,
            r matches Ok(Some(t)) ==> exists|i: int|
                0 <= i < old(self).todos().len() && old(self).todos()[i].id == source.id@
                    && t@ == source.apply(#[trigger] old(self).todos()[i], t@.updated_at)
                    && final(self).todos() == old(self).todos().update(i, t@),
            r matches Ok(None) ==> !has_todo_id(old(self).todos(), source.id@),
            !(r matches Ok(Some(_))) ==> final(self).todos() == old(self).todos(),
    ;

    /// Replaces every field of the todo with the id, or stores it as new.
    fn upsert(&mut self, source: UpsertTodo) -> (r: Result<Todo, RepositoryError>)
        ensures
            final(self).default_status() == old(self).default_status(),
            final(self).infallible() == old(self).infallible(),
            created_in_order(old(self).todos()) ==> created_in_order(final(self).todos()),
            old(self).infallible() ==> r is Ok,
            r matches Ok(t) ==> {
                &&& t@.id == source.id@
                &&& t@.title == source.title@
                &&& t@.description == source.description@
                &&& t@.status == source.status@
                &&& (exists|i: int|
                    0 <= i < old(self).todos().len() && #[trigger] old(self).todos()[i].id == source.id@
                        && t@.created_at == old(self).todos()[i].created_at
                        && final(self).todos() == old(self).todos().update(i, t@))
                    || (!has_todo_id(old(self).todos(), source.id@)
                        && t@.created_at == t@.updated_at
                        && final(self).todos() == old(self).todos().push(t@))
            },
            r is Err ==> final(self).todos() == old(self).todos(),
    ;

    /// Removes the todo with the id and hands it back, if there is one.
    fn delete(&mut self, id: &Id<TodoTag>) -> (r: Result<Option<Todo>, RepositoryError>)
        ensures
            final(self).default_status() == old(self).default_status(),
            final(self).infallible() == old(self).infallible(),
            created_in_order(old(self).todos()) ==> created_in_order(final(self).todos()),
            old(self).infallible() ==> r is Ok,
            r matches Ok(Some(t)) ==> exists|i: int|
                0 <= i < old(self).todos().len() && #[trigger] old(self).todos()[i] == t@
                    && t@.id == id@ && final(self).todos() == old(self).todos().remove(i),
            r matches Ok(None) ==> !has_todo_id(old(self).todos(), id@),
            !(r matches Ok(Some(_))) ==> final(self).todos() == old(self).todos(),
    ;
}

/// The known todo statuses.
pub trait TodoStatusRepository {
    spec fn statuses(&self) -> StatusRows;

    /// The storage never fails: every call answers.
    spec fn infallible(&self) -> bool;

    fn get_by_code(&self, code: &str) -> (r: Result<Option<TodoStatus>, RepositoryError>)
        ensures
            self.infallible() ==> r is Ok,
            r matches Ok(Some(s)) ==> self.statuses().contains(s@) && s@.code == code@,
            r matches Ok(None) ==> forall|i: int|
                0 <= i < self.statuses().len() ==> #[trigger] self.statuses()[i].code != code@,
    ;
}

} // verus!
