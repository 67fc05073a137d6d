//! Repositories that keep their tables in memory.

use crate::id::Id;
use crate::model::{
    NewTodo, NewUser, StatusV, Todo, TodoStatus, TodoTag, TodoV, UpdateTodo, UpsertTodo,
    User, UserTag, UserV,
};
use crate::repository::{
    created_in_order, has_todo_id, has_user_id, has_username, status_filter, status_view, RepositoryError,
    TodoRepository, TodoStatusRepository, UserRepository,
};
use vstd::prelude::*;

verus! {

/// Relies on `std::time::SystemTime::now` and `SystemTime::duration_since`:
/// the wall-clock time in microseconds since the Unix epoch, or `None` where
/// the clock reads before the epoch or beyond what fits; nothing else is promised.
#[verifier::external_body]
fn now_micros() -> Option<i64> {
    match std::time::SystemTime::now().duration_since(std::time::UNIX_EPOCH) {
        Ok(d) => i64::try_from(d.as_micros()).ok(),
        Err(_) => None,
    }
}

fn failure(text: &str) -> RepositoryError {
    RepositoryError { message: text.to_string() }
}

/// The users, in the order they were stored.
pub struct UserRepositoryImpl {
    rows: Vec<User>,
}

impl UserRepositoryImpl {
    pub fn new() -> (r: Self)
        ensures
            r.users().len() == 0,
    {
        UserRepositoryImpl { rows: Vec::new() }
    }

    /// The index of the user with the id, if there is one.
    fn index_of_id(&self, id: &Id<UserTag>) -> (r: Option<usize>)
        ensures
            r matches Some(i) ==> i < self.users().len() && self.users()[i as int].id == id@,
            r is None ==> !has_user_id(self.users(), id@),
    {
        let mut i: usize = 0;
        while i < self.rows.len()
            invariant
                i <= self.rows.len(),
                forall|j: int| 0 <= j < i ==> self.users()[j].id != id@,
            decreases self.rows.len() - i,
        {
            if self.rows[i].id.value == id.value {
                return Some(i);
            }
            i = i + 1;
        }
        None
    }

    /// The index of the first user with the username, if there is one.
    fn index_of_username(&self, username: &str) -> (r: Option<usize>)
        ensures
            r matches Some(i) ==> i < self.users().len() && self.users()[i as int].username == username@,
            r is None ==> !has_username(self.users(), username@),
    {
        let name = username.to_string();
        let mut i: usize = 0;
        while i < self.rows.len()
            invariant
                i <= self.rows.len(),
                name@ == username@,
                forall|j: int| 0 <= j < i ==> self.users()[j].username != username@,
            decreases self.rows.len() - i,
        {
            if self.rows[i].username == name {
                return Some(i);
            }
            i = i + 1;
        }
        None
    }
}

impl UserRepository for UserRepositoryImpl {
    closed spec fn users(&self) -> Seq<UserV> {
        self.rows@.map_values(|u: User| u@)
    }

    /// Memory always answers.
    open spec fn infallible(&self) -> bool {
        true
    }

    fn get_user(&self, id: &Id<UserTag>) -> (r: Result<Option<User>, RepositoryError>) {
        match self.index_of_id(id) {
            Some(i) => {
                assert(self.users()[i as int] == self.rows@[i as int]@);
                Ok(Some(self.rows[i].clone_user()))
            },
            None => Ok(None),
        }
    }

    fn get_user_by_username(&self, username: &str) -> (r: Result<Option<User>, RepositoryError>) {
        match self.index_of_username(username) {
            Some(i) => {
                assert(self.users()[i as int] == self.rows@[i as int]@);
                Ok(Some(self.rows[i].clone_user()))
            },
            None => Ok(None),
        }
    }

    fn insert(&mut self, source: NewUser) -> (r: Result<User, RepositoryError>) {
        if self.index_of_id(&source.id).is_some() {
            return Err(failure("a user with this id already exists"));
        }
        let ghost before = self.users();
        let email = source.username.clone();
        let user = User::new(source.id, source.username, email, source.password, source.fullname);
        let out = user.clone_user();
        self.rows.push(user);
        assert(self.users() =~= before.push(out@));
        Ok(out)
    }
}

/// The todos, in the order they were created, and the status that new ones get.
pub struct TodoRepositoryImpl {
    rows: Vec<Todo>,
    default_status: TodoStatus,
    clock: i64,
}

impl TodoRepositoryImpl {
    pub fn new(default_status: TodoStatus) -> (r: Self)
        ensures
            r.todos().len() == 0,
            r.default_status() == default_status@,
    {
        TodoRepositoryImpl { rows: Vec::new(), default_status, clock: 0 }
    }

    /// The time of a write: the wall clock, but never before an earlier write
    /// nor before the last todo was created.
    fn stamp(&mut self) -> (r: i64)
        ensures
            final(self).rows == old(self).rows,
            final(self).default_status == old(self).default_status,
            r >= old(self).clock,
            old(self).rows.len() > 0 ==> r >= old(self).todos().last().created_at,
    {
        let mut t = self.clock;
        match now_micros() {
            Some(now) => {
                if now > t {
                    t = now;
                }
            },
            None => {},
        }
        let n = self.rows.len();
        if n > 0 && self.rows[n - 1].created_at > t {
            t = self.rows[n - 1].created_at;
        }
        proof {
            if n > 0 {
                assert(self.todos().last() == self.rows@[n - 1]@);
            }
        }
        self.clock = t;
        t
    }

    /// The index of the todo with the id, if there is one.
    fn index_of_id(&self, id: &Id<TodoTag>) -> (r: Option<usize>)
        ensures
            r matches Some(i) ==> i < self.todos().len() && self.todos()[i as int].id == id@,
            r is None ==> !has_todo_id(self.todos(), id@),
    {
        let mut i: usize = 0;
        while i < self.rows.len()
            invariant
                i <= self.rows.len(),
                forall|j: int| 0 <= j < i ==> self.todos()[j].id != id@,
            decreases self.rows.len() - i,
        {
            if self.rows[i].id.value == id.value {
                return Some(i);
            }
            i = i + 1;
        }
        None
    }
}

impl TodoRepository for TodoRepositoryImpl {
    closed spec fn todos(&self) -> Seq<TodoV> {
        self.rows@.map_values(|t: Todo| t@)
    }

    closed spec fn default_status(&self) -> StatusV {
        self.default_status@
    }

    /// Memory always answers.
    open spec fn infallible(&self) -> bool {
        true
    }

    fn get(&self, id: &Id<TodoTag>) -> (r: Result<Option<Todo>, RepositoryError>) {
        match self.index_of_id(id) {
            Some(i) => {
                assert(self.todos()[i as int] == self.rows@[i as int]@);
                Ok(Some(self.rows[i].clone_todo()))
            },
            None => Ok(None),
        }
    }

    fn find(&self, status: Option<TodoStatus>) -> (r: Result<Vec<Todo>, RepositoryError>) {
        let ghost pred = status_filter(status_view(status));
        let ghost rows = self.todos();
        let mut out: Vec<Todo> = Vec::new();
        let mut i: usize = 0;
        while i < self.rows.len()
            invariant
                i <= self.rows.len(),
                rows == self.todos(),
                pred == status_filter(status_view(status)),
                out@.map_values(|t: Todo| t@) == rows.subrange(0, i as int).filter(pred),
                created_in_order(rows) ==> created_in_order(out@.map_values(|t: Todo| t@)),
                created_in_order(rows) ==> forall|a: int, j: int|
                    0 <= a < out@.len() && i <= j < rows.len() ==> #[trigger] out@[a]@.created_at
                        <= #[trigger] rows[j].created_at,
            decreases self.rows.len() - i,
        {
            let keep = match &status {
                Some(s) => self.rows[i].status.id.value == s.id.value,
                None => true,
            };
            proof {
                assert(rows.subrange(0, i + 1) =~= rows.subrange(0, i as int).push(rows[i as int]));
                rows.subrange(0, i as int).lemma_filter_push(rows[i as int], pred);
                assert(keep == pred(rows[i as int]));
            }
            if keep {
                let ghost before = out@;
                out.push(self.rows[i].clone_todo());
                assert(out@.map_values(|t: Todo| t@) =~= before.map_values(|t: Todo| t@).push(
                    rows[i as int],
                ));
                proof {
                    if created_in_order(rows) {
                        let ov = out@.map_values(|t: Todo| t@);
                        assert forall|a: int, b: int| 0 <= a < b < ov.len() implies ov[a].created_at
                            <= ov[b].created_at by {
                            if b == ov.len() - 1 {
                                assert(before[a]@.created_at <= rows[i as int].created_at);
                            } else {
                                assert(before.map_values(|t: Todo| t@)[a] == ov[a]);
                                assert(before.map_values(|t: Todo| t@)[b] == ov[b]);
                            }
                        }
                        assert forall|a: int, j: int|
                            0 <= a < out@.len() && i + 1 <= j < rows.len() implies #[trigger] out@[a]@.created_at
                            <= #[trigger] rows[j].created_at by {
                            if a < before.len() {
                                assert(out@[a] == before[a]);
                            }
                        }
                    }
                }
            }
            i = i + 1;
        }
        assert(rows.subrange(0, self.rows.len() as int) =~= rows);
        Ok(out)
    }

    fn insert(&mut self, source: NewTodo) -> (r: Result<Todo, RepositoryError>) {
        if self.index_of_id(&source.id).is_some() {
            return Err(failure("a todo with this id already exists"));
        }
        let ghost before = self.todos();
        let now = self.stamp();
        let todo = Todo {
            id: source.id,
            title: source.title,
            description: source.description,
            status: self.default_status.clone_status(),
            created_at: now,
            updated_at: now,
        };
        let out = todo.clone_todo();
        self.rows.push(todo);
        assert(self.todos() =~= before.push(out@));
        Ok(out)
    }

    fn update(&mut self, source: UpdateTodo) -> (r: Result<Option<Todo>, RepositoryError>) {
        let i = match self.index_of_id(&source.id) {
            Some(i) => i,
            None => return Ok(None),
        };
        let ghost before = self.todos();
        let ghost src = source;
        let now = self.stamp();
        let current = self.rows[i].clone_todo();
        let todo = Todo {
            id: current.id,
            title: match source.title {
                Some(s) => s,
                None => current.title,
            },
            description: match source.description {
                Some(s) => s,
                None => current.description,
            },
            status: match source.status {
                Some(s) => s,
                None => current.status,
            },
            created_at: current.created_at,
            updated_at: now,
        };
        let out = todo.clone_todo();
        self.rows.set(i, todo);
        assert(out@ == src.apply(before[i as int], out@.updated_at));
        assert(self.todos() =~= before.update(i as int, out@));
        Ok(Some(out))
    }

    fn upsert(&mut self, source: UpsertTodo) -> (r: Result<Todo, RepositoryError>) {
        let ghost before = self.todos();
        let found = self.index_of_id(&source.id);
        let now = self.stamp();
        match found {
            Some(i) => {
                let created_at = self.rows[i].created_at;
                let todo = Todo {
                    id: source.id,
                    title: source.title,
                    description: source.description,
                    status: source.status,
                    created_at,
                    updated_at: now,
                };
                let out = todo.clone_todo();
                self.rows.set(i, todo);
                assert(self.todos() =~= before.update(i as int, out@));
                Ok(out)
            },
            None => {
                let todo = Todo {
                    id: source.id,
                    title: source.title,
                    description: source.description,
                    status: source.status,
                    created_at: now,
                    updated_at: now,
                };
                let out = todo.clone_todo();
                self.rows.push(todo);
                assert(self.todos() =~= before.push(out@));
                Ok(out)
            },
        }
    }

    fn delete(&mut self, id: &Id<TodoTag>) -> (r: Result<Option<Todo>, RepositoryError>) {
        match self.index_of_id(id) {
            Some(i) => {
                let ghost before = self.todos();
                let removed = self.rows.remove(i);
                assert(self.todos() =~= before.remove(i as int));
                Ok(Some(removed))
            },
            None => Ok(None),
        }
    }
}

/// The known statuses.
pub struct TodoStatusRepositoryImpl {
    rows: Vec<TodoStatus>,
}

impl TodoStatusRepositoryImpl {
    pub fn new(statuses: Vec<TodoStatus>) -> (r: Self)
        ensures
            r.statuses() == statuses@.map_values(|s: TodoStatus| s@),
    {
        TodoStatusRepositoryImpl { rows: statuses }
    }
}

impl TodoStatusRepository for TodoStatusRepositoryImpl {
    closed spec fn statuses(&self) -> Seq<StatusV> {
        self.rows@.map_values(|s: TodoStatus| s@)
    }

    /// Memory always answers.
    open spec fn infallible(&self) -> bool {
        true
    }

    fn get_by_code(&self, code: &str) -> (r: Result<Option<TodoStatus>, RepositoryError>) {
        let wanted = code.to_string();
        let mut i: usize = 0;
        while i < self.rows.len()
            invariant
                i <= self.rows.len(),
                wanted@ == code@,
                forall|j: int| 0 <= j < i ==> #[trigger] self.statuses()[j].code != code@,
            decreases self.rows.len() - i,
        {
            if self.rows[i].code == wanted {
                assert(self.statuses()[i as int] == self.rows@[i as int]@);
                return Ok(Some(self.rows[i].clone_status()));
            }
            i = i + 1;
        }
        Ok(None)
    }
}

} // verus!
