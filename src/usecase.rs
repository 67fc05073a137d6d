//! Use cases: the rules that run between a request and the repositories.

use crate::id::{is_canonical_ulid, is_ulid_text, ulid_canonical, Id};
use crate::model::{
    opt_view, or_keep, NewTodo, NewUser, StatusV, TodoTag, TodoV, UpdateTodo, UpsertTodo, User, UserTag, UserV,
};
use crate::password::{bcrypt_verifies, hash_password, verify_password, HASH_COST};
use crate::repository::{
    has_todo_id, has_user_id, has_username, status_filter, RepositoryError, TodoRepository,
    TodoStatusRepository, UserRepository,
};
use crate::view::{
    CreateTodo, CreateUser, LoginUser, SearchTodoCondition, SearchUserCondition, TodoView,
    UpdateTodoView, UpsertTodoView, UserView,
};
use vstd::prelude::*;

verus! {

/// Why a use case did not complete.
#[derive(Debug)]
pub enum UseCaseError {
    /// The identifier text is not a ULID.
    InvalidId,
    /// A search by username named none.
    UsernameEmpty,
    /// Registration under a username that is taken.
    UsernameExists(String),
    /// The password could not be hashed.
    PasswordHashing,
    /// Hashing gave an empty text.
    HashedPasswordEmpty,
    /// Login under a username that no user has.
    NotRegistered(String),
    /// The stored hash could not be read.
    PasswordCheck,
    /// Login with a password that does not match.
    BadPassword,
    /// No status has the code.
    InvalidStatusCode,
    /// No todo has the id.
    TodoNotFound,
    /// The storage failed.
    Repository(RepositoryError),
}

/// The text of an error, as reported to clients.
pub open spec fn error_message(e: UseCaseError) -> Seq<char> {
    match e {
        UseCaseError::InvalidId => "invalid id"@,
        UseCaseError::UsernameEmpty => "username is empty"@,
        UseCaseError::UsernameExists(u) => "username "@ + u@ + " already exists"@,
        UseCaseError::PasswordHashing => "password hashing failed"@,
        UseCaseError::HashedPasswordEmpty => "hashed password is empty"@,
        UseCaseError::NotRegistered(u) => "username "@ + u@ + " is not registered"@,
        UseCaseError::PasswordCheck => "stored password hash is invalid"@,
        UseCaseError::BadPassword => "bad password."@,
        UseCaseError::InvalidStatusCode => "`statusCode` is invalid."@,
        UseCaseError::TodoNotFound => "data not found"@,
        UseCaseError::Repository(e) => e.message@,
    }
}

impl UseCaseError {
    pub fn message(&self) -> (r: String)
        ensures
            r@ == error_message(*self),
    {
        match self {
            UseCaseError::InvalidId => String::from_str("invalid id"),
            UseCaseError::UsernameEmpty => String::from_str("username is empty"),
            UseCaseError::UsernameExists(u) => {
                let mut s = String::from_str("username ");
                s.append(u.as_str());
                s.append(" already exists");
                s
            },
            UseCaseError::PasswordHashing => String::from_str("password hashing failed"),
            UseCaseError::HashedPasswordEmpty => String::from_str("hashed password is empty"),
            UseCaseError::NotRegistered(u) => {
                let mut s = String::from_str("username ");
                s.append(u.as_str());
                s.append(" is not registered");
                s
            },
            UseCaseError::PasswordCheck => String::from_str("stored password hash is invalid"),
            UseCaseError::BadPassword => String::from_str("bad password."),
            UseCaseError::InvalidStatusCode => String::from_str("`statusCode` is invalid."),
            UseCaseError::TodoNotFound => String::from_str("data not found"),
            UseCaseError::Repository(e) => e.message.clone(),
        }
    }
}

/// What `create_user(source)` returns and how the users go from `before` to `after`.
pub open spec fn create_user_post(
    before: Seq<UserV>,
    infallible: bool,
    source: CreateUser,
    r: Result<UserView, UseCaseError>,
    after: Seq<UserV>,
) -> bool {
    &&& (r matches Ok(v) ==> {
        &&& !has_username(before, source.username@)
        &&& is_canonical_ulid(v@.id)
        &&& v@.username == source.username@
        &&& v@.email == source.username@
        &&& v@.fullname == source.fullname@
        &&& bcrypt_verifies(source.password@, v@.password)
        &&& after == before.push(v@)
    })
    &&& (has_username(before, source.username@) ==> (r matches Err(UseCaseError::UsernameExists(_))
        || r matches Err(UseCaseError::Repository(_))))
    &&& (r matches Err(UseCaseError::UsernameExists(u)) ==> u@ == source.username@ && has_username(
        before,
        source.username@,
    ))
    &&& (r matches Err(e) ==> (e is UsernameExists || e is PasswordHashing || e is Repository))
    &&& (infallible && has_username(before, source.username@) ==> r matches Err(
        UseCaseError::UsernameExists(_),
    ))
    // with storage that answers, only a failed hash or a fresh id that is already taken stops it
    &&& (infallible ==> (r matches Err(UseCaseError::Repository(_)) ==> before.len() > 0))
    &&& (r is Err ==> after == before)
}

/// A user with the username whose stored hash does not accept the password.
pub open spec fn password_refused_by_some(users: Seq<UserV>, username: Seq<char>, password: Seq<char>) -> bool {
    exists|i: int|
        0 <= i < users.len() && #[trigger] users[i].username == username && !bcrypt_verifies(
            password,
            users[i].password,
        )
}

/// What `login_user(source)` returns when the users are `users`.
pub open spec fn login_user_post(
    users: Seq<UserV>,
    infallible: bool,
    source: LoginUser,
    r: Result<UserView, UseCaseError>,
) -> bool {
    &&& (r matches Ok(v) ==> {
        &&& users.contains(v@)
        &&& v@.username == source.username@
        &&& bcrypt_verifies(source.password@, v@.password)
    })
    &&& (!has_username(users, source.username@) ==> r matches Err(UseCaseError::NotRegistered(_)))
    &&& (r matches Err(UseCaseError::NotRegistered(u)) ==> u@ == source.username@)
    &&& (r matches Err(UseCaseError::BadPassword) ==> password_refused_by_some(users, source.username@, source.password@))
    &&& (r matches Err(UseCaseError::PasswordCheck) ==> password_refused_by_some(users, source.username@, source.password@))
    &&& (r matches Err(e) ==> (e is NotRegistered || e is BadPassword || e is PasswordCheck))
    &&& (infallible ==> (r matches Err(UseCaseError::NotRegistered(_)) ==> !has_username(
        users,
        source.username@,
    )))
    &&& (infallible && has_username(users, source.username@) && !password_refused_by_some(
        users,
        source.username@,
        source.password@,
    ) ==> r is Ok)
}

/// The outcome of a login once the password has been checked against the
/// stored hash of `user`.
pub fn login_outcome(user: User, checked: Result<bool, bcrypt::BcryptError>) -> (r: Result<UserView, UseCaseError>)
    ensures
        checked matches Ok(true) <==> r is Ok,
        r matches Ok(v) ==> v@ == user@,
        checked matches Ok(false) <==> r matches Err(UseCaseError::BadPassword),
        checked is Err <==> r matches Err(UseCaseError::PasswordCheck),
{
    match checked {
        Ok(true) => Ok(UserView::from_user(user)),
        Ok(false) => Err(UseCaseError::BadPassword),
        Err(_) => Err(UseCaseError::PasswordCheck),
    }
}

/// The user use cases over a user repository.
pub struct UserUseCase<R: UserRepository> {
    pub repository: R,
}

impl<R: UserRepository> UserUseCase<R> {
    pub fn new(repository: R) -> (r: Self)
        ensures
            r.repository == repository,
    {
        UserUseCase { repository }
    }

    pub open spec fn users(&self) -> Seq<UserV> {
        self.repository.users()
    }

    /// The user with the id.
    pub fn get_user(&self, id: String) -> (r: Result<Option<UserView>, UseCaseError>)
        ensures
            !is_ulid_text(id@) <==> r matches Err(UseCaseError::InvalidId),
            r matches Ok(Some(v)) ==> self.users().contains(v@) && v@.id == ulid_canonical(id@),
            r matches Ok(None) ==> !has_user_id(self.users(), ulid_canonical(id@)),
            r matches Err(e) ==> (e is InvalidId || e is Repository),
            self.repository.infallible() && is_ulid_text(id@) ==> r is Ok,
    {
        let id = match Id::<UserTag>::parse(id.as_str()) {
            Ok(id) => id,
            Err(_) => return Err(UseCaseError::InvalidId),
        };
        match self.repository.get_user(&id) {
            Ok(Some(user)) => Ok(Some(UserView::from_user(user))),
            Ok(None) => Ok(None),
            Err(e) => Err(UseCaseError::Repository(e)),
        }
    }

    /// A user with the username of the condition.
    pub fn get_user_by_username(&self, condition: SearchUserCondition) -> (r: Result<Option<UserView>, UseCaseError>)
        ensures
            condition.username is None <==> r matches Err(UseCaseError::UsernameEmpty),
            r matches Ok(Some(v)) ==> self.users().contains(v@) && opt_view(condition.username) == Some(
                v@.username,
            ),
            r matches Ok(None) ==> (condition.username matches Some(u) && !has_username(self.users(), u@)),
            r matches Err(e) ==> (e is UsernameEmpty || e is Repository),
            self.repository.infallible() && condition.username is Some ==> r is Ok,
    {
        let username = match &condition.username {
            Some(u) => u,
            None => return Err(UseCaseError::UsernameEmpty),
        };
        match self.repository.get_user_by_username(username.as_str()) {
            Ok(Some(user)) => Ok(Some(UserView::from_user(user))),
            Ok(None) => Ok(None),
            Err(e) => Err(UseCaseError::Repository(e)),
        }
    }

    /// Registers a user under a username that no user has yet, storing a
    /// bcrypt hash of the password.
    pub fn create_user(&mut self, source: CreateUser) -> (r: Result<UserView, UseCaseError>)
        ensures
            create_user_post(old(self).users(), old(self).repository.infallible(), source, r, final(self).users()),
    {
        match self.repository.get_user_by_username(source.username.as_str()) {
            Ok(Some(_)) => {
                return Err(UseCaseError::UsernameExists(source.username));
            },
            Err(e) => {
                return Err(UseCaseError::Repository(e));
            },
            Ok(None) => {},
        }
        let hashed = match hash_password(source.password.as_str(), HASH_COST) {
            Ok(h) => h,
            Err(_) => return Err(UseCaseError::PasswordHashing),
        };
        self.insert_user(CreateUser::new(source.username, hashed, source.fullname))
    }

    /// Stores a user under a fresh id; the password field of `user` already
    /// holds the hash, which must not be empty.
    pub fn insert_user(&mut self, user: CreateUser) -> (r: Result<UserView, UseCaseError>)
        ensures
            user.password@.len() == 0 <==> r matches Err(UseCaseError::HashedPasswordEmpty),
            r matches Ok(v) ==> {
                &&& is_canonical_ulid(v@.id)
                &&& !has_user_id(old(self).users(), v@.id)
                &&& v@.username == user.username@
                &&& v@.email == user.username@
                &&& v@.password == user.password@
                &&& v@.fullname == user.fullname@
                &&& final(self).users() == old(self).users().push(v@)
            },
            r matches Err(e) ==> (e is HashedPasswordEmpty || e is Repository),
            old(self).repository.infallible() ==> (r matches Err(UseCaseError::Repository(_))
                ==> old(self).users().len() > 0),
            r is Err ==> final(self).users() == old(self).users(),
            final(self).repository.infallible() == old(self).repository.infallible(),
    {
        if user.password.as_str().unicode_len() == 0 {
            return Err(UseCaseError::HashedPasswordEmpty);
        }
        let new_user = NewUser::new(Id::gen(), user.username, user.password, user.fullname);
        match self.repository.insert(new_user) {
            Ok(u) => Ok(UserView::from_user(u)),
            Err(e) => Err(UseCaseError::Repository(e)),
        }
    }

    /// Checks a username and password against the stored hash.
    pub fn login_user(&self, source: LoginUser) -> (r: Result<UserView, UseCaseError>)
        ensures
            login_user_post(self.users(), self.repository.infallible(), source, r),
    {
        let user = match self.repository.get_user_by_username(source.username.as_str()) {
            Ok(Some(user)) => user,
            _ => return Err(UseCaseError::NotRegistered(source.username)),
        };
        let checked = verify_password(source.password.as_str(), user.password.as_str());
        login_outcome(user, checked)
    }
}

} // verus!

verus! {

/// The views of a list of todos.
pub open spec fn todo_views(v: Seq<TodoView>) -> Seq<TodoV> {
    v.map_values(|t: TodoView| t@)
}

/// Some status has the code.
pub open spec fn has_status_code(statuses: Seq<StatusV>, code: Seq<char>) -> bool {
    exists|i: int| 0 <= i < statuses.len() && #[trigger] statuses[i].code == code
}

/// No two statuses share a code.
pub open spec fn unique_status_codes(statuses: Seq<StatusV>) -> bool {
    forall|i: int, j: int| 0 <= i < statuses.len() && 0 <= j < statuses.len() && i != j ==> statuses[i].code
        != statuses[j].code
}

/// What `get_todo(id)` returns when the todos are `rows`.
pub open spec fn get_todo_post(
    rows: Seq<TodoV>,
    infallible: bool,
    id: Seq<char>,
    r: Result<Option<TodoView>, UseCaseError>,
) -> bool {
    &&& (!is_ulid_text(id) <==> r matches Err(UseCaseError::InvalidId))
    &&& (r matches Ok(Some(v)) ==> rows.contains(v@) && v@.id == ulid_canonical(id))
    &&& (r matches Ok(None) ==> !has_todo_id(rows, ulid_canonical(id)))
    &&& (r matches Err(e) ==> (e is InvalidId || e is Repository))
    &&& (infallible && is_ulid_text(id) ==> r is Ok)
}

/// What `create_todo(source)` returns and how the todos go from `before` to `after`.
pub open spec fn create_todo_post(
    before: Seq<TodoV>,
    default_status: StatusV,
    infallible: bool,
    source: CreateTodo,
    r: Result<TodoView, UseCaseError>,
    after: Seq<TodoV>,
) -> bool {
    &&& (r matches Ok(v) ==> {
        &&& is_canonical_ulid(v@.id)
        &&& !has_todo_id(before, v@.id)
        &&& v@.title == source.title@
        &&& v@.description == source.description@
        &&& v@.status == default_status
        &&& v@.created_at == v@.updated_at
        &&& after == before.push(v@)
    })
    &&& (r matches Err(e) ==> e is Repository)
    // with storage that answers, only a fresh id that is already taken stops it
    &&& (infallible ==> (r is Err ==> before.len() > 0))
    &&& (r is Err ==> after == before)
}

/// What `update_todo(source)` returns and how the todos go from `before` to `after`.
pub open spec fn update_todo_post(
    before: Seq<TodoV>,
    statuses: Seq<StatusV>,
    infallible: bool,
    source: UpdateTodoView,
    r: Result<TodoView, UseCaseError>,
    after: Seq<TodoV>,
) -> bool {
    &&& (r matches Ok(v) ==> exists|i: int|
        0 <= i < before.len() && #[trigger] before[i].id == ulid_canonical(source.id@) && {
            &&& v@.id == before[i].id
            &&& v@.title == or_keep(opt_view(source.title), before[i].title)
            &&& v@.description == or_keep(opt_view(source.description), before[i].description)
            &&& source.status_code is None ==> v@.status == before[i].status
            &&& v@.created_at == before[i].created_at
            &&& after == before.update(i, v@)
        })
    &&& (source.status_code matches Some(c) ==> (r matches Ok(v) ==> statuses.contains(v@.status)
        && v@.status.code == c@))
    &&& (!is_ulid_text(source.id@) ==> r is Err)
    &&& (r matches Err(e) ==> (e is InvalidId || e is InvalidStatusCode || e is TodoNotFound || e is Repository))
    &&& (r matches Err(UseCaseError::InvalidId) ==> !is_ulid_text(source.id@))
    &&& (source.status_code is None ==> (!is_ulid_text(source.id@) <==> r matches Err(UseCaseError::InvalidId)))
    &&& (r matches Err(UseCaseError::InvalidStatusCode) ==> (source.status_code matches Some(c)
        && !has_status_code(statuses, c@)))
    &&& (source.status_code matches Some(c) && !has_status_code(statuses, c@) ==> (r matches Err(
        UseCaseError::InvalidStatusCode,
    ) || r matches Err(UseCaseError::Repository(_))))
    &&& (r matches Err(UseCaseError::TodoNotFound) ==> !has_todo_id(before, ulid_canonical(source.id@)))
    &&& (infallible && (source.status_code matches Some(c) && !has_status_code(statuses, c@)) ==> r matches Err(
        UseCaseError::InvalidStatusCode,
    ))
    &&& (infallible && is_ulid_text(source.id@) && (source.status_code matches Some(c) ==> has_status_code(
        statuses,
        c@,
    )) ==> (r is Ok <==> has_todo_id(before, ulid_canonical(source.id@))))
    &&& (infallible && is_ulid_text(source.id@) && (source.status_code matches Some(c) ==> has_status_code(
        statuses,
        c@,
    )) && !has_todo_id(before, ulid_canonical(source.id@)) ==> r matches Err(UseCaseError::TodoNotFound))
    &&& (r is Err ==> after == before)
}

/// What `upsert_todo(source)` returns and how the todos go from `before` to `after`.
pub open spec fn upsert_todo_post(
    before: Seq<TodoV>,
    statuses: Seq<StatusV>,
    infallible: bool,
    source: UpsertTodoView,
    r: Result<TodoView, UseCaseError>,
    after: Seq<TodoV>,
) -> bool {
    &&& (r matches Ok(v) ==> {
        &&& v@.id == ulid_canonical(source.id@)
        &&& v@.title == source.title@
        &&& v@.description == source.description@
        &&& statuses.contains(v@.status)
        &&& v@.status.code == source.status_code@
        &&& (exists|i: int|
            0 <= i < before.len() && #[trigger] before[i].id == v@.id && v@.created_at
                == before[i].created_at && after == before.update(i, v@)) || (!has_todo_id(before, v@.id)
            && v@.created_at == v@.updated_at && after == before.push(v@))
    })
    &&& (!is_ulid_text(source.id@) ==> r is Err)
    &&& (r matches Err(e) ==> (e is InvalidId || e is InvalidStatusCode || e is Repository))
    &&& (r matches Err(UseCaseError::InvalidId) ==> !is_ulid_text(source.id@))
    &&& (r matches Err(UseCaseError::InvalidStatusCode) ==> !has_status_code(statuses, source.status_code@))
    &&& (!has_status_code(statuses, source.status_code@) ==> (r matches Err(UseCaseError::InvalidStatusCode)
        || r matches Err(UseCaseError::Repository(_))))
    &&& (infallible && !has_status_code(statuses, source.status_code@) ==> r matches Err(
        UseCaseError::InvalidStatusCode,
    ))
    &&& (infallible && has_status_code(statuses, source.status_code@) ==> (r is Ok <==> is_ulid_text(
        source.id@,
    )))
    &&& (r is Err ==> after == before)
}

/// What `delete_todo(id)` returns and how the todos go from `before` to `after`.
pub open spec fn delete_todo_post(
    before: Seq<TodoV>,
    infallible: bool,
    id: Seq<char>,
    r: Result<Option<TodoView>, UseCaseError>,
    after: Seq<TodoV>,
) -> bool {
    &&& (!is_ulid_text(id) <==> r matches Err(UseCaseError::InvalidId))
    &&& (r matches Ok(Some(v)) ==> exists|i: int|
        0 <= i < before.len() && #[trigger] before[i] == v@ && v@.id == ulid_canonical(id) && after
            == before.remove(i))
    &&& (r matches Ok(None) ==> !has_todo_id(before, ulid_canonical(id)))
    &&& (r matches Err(e) ==> (e is InvalidId || e is Repository))
    &&& (infallible && is_ulid_text(id) ==> r is Ok)
    &&& (!(r matches Ok(Some(_))) ==> after == before)
}

/// The todo use cases over a todo repository and a status repository.
pub struct TodoUseCase<T: TodoRepository, S: TodoStatusRepository> {
    pub todos: T,
    pub statuses: S,
}

impl<T: TodoRepository, S: TodoStatusRepository> TodoUseCase<T, S> {
    pub fn new(todos: T, statuses: S) -> (r: Self)
        ensures
            r.todos == todos,
            r.statuses == statuses,
    {
        TodoUseCase { todos, statuses }
    }

    pub open spec fn rows(&self) -> Seq<TodoV> {
        self.todos.todos()
    }

    /// Both repositories always answer.
    pub open spec fn infallible(&self) -> bool {
        self.todos.infallible() && self.statuses.infallible()
    }

    /// The status with the code.
    fn status_by_code(&self, code: &str) -> (r: Result<crate::model::TodoStatus, UseCaseError>)
        ensures
            r matches Ok(s) ==> self.statuses.statuses().contains(s@) && s@.code == code@,
            !has_status_code(self.statuses.statuses(), code@) ==> r is Err,
            r matches Err(UseCaseError::InvalidStatusCode) ==> !has_status_code(self.statuses.statuses(), code@),
            r matches Err(e) ==> (e is InvalidStatusCode || e is Repository),
            self.statuses.infallible() ==> (r is Ok || r matches Err(UseCaseError::InvalidStatusCode)),
    {
        match self.statuses.get_by_code(code) {
            Ok(Some(s)) => Ok(s),
            Ok(None) => Err(UseCaseError::InvalidStatusCode),
            Err(e) => Err(UseCaseError::Repository(e)),
        }
    }

    /// The todo with the id.
    pub fn get_todo(&self, id: String) -> (r: Result<Option<TodoView>, UseCaseError>)
        ensures
            get_todo_post(self.rows(), self.infallible(), id@, r),
    {
        let id = match Id::<TodoTag>::parse(id.as_str()) {
            Ok(id) => id,
            Err(_) => return Err(UseCaseError::InvalidId),
        };
        match self.todos.get(&id) {
            Ok(Some(t)) => Ok(Some(TodoView::from_todo(t))),
            Ok(None) => Ok(None),
            Err(e) => Err(UseCaseError::Repository(e)),
        }
    }

    /// The todos in the status with the code of the condition, or all todos,
    /// in the order they were created.
    pub fn find_todo(&self, condition: SearchTodoCondition) -> (r: Result<Vec<TodoView>, UseCaseError>)
        ensures
            condition.status_code is None ==> (r matches Ok(v) ==> todo_views(v@) == self.rows()),
            condition.status_code matches Some(c) ==> (r matches Ok(v) ==> exists|s: StatusV|
                #[trigger] self.statuses.statuses().contains(s) && s.code == c@ && todo_views(v@)
                    == self.rows().filter(status_filter(Some(s)))),
            condition.status_code matches Some(c) && !has_status_code(self.statuses.statuses(), c@) ==> r is Err,
            r matches Err(e) ==> (e is InvalidStatusCode || e is Repository),
            r matches Err(UseCaseError::InvalidStatusCode) ==> (condition.status_code matches Some(c)
                && !has_status_code(self.statuses.statuses(), c@)),
            self.infallible() ==> (r is Ok <==> (condition.status_code matches Some(c) ==> has_status_code(
                self.statuses.statuses(),
                c@,
            ))),
            self.infallible() && (condition.status_code matches Some(c) && !has_status_code(
                self.statuses.statuses(),
                c@,
            )) ==> r matches Err(UseCaseError::InvalidStatusCode),
            crate::repository::created_in_order(self.rows()) ==> (r matches Ok(v) ==> crate::repository::created_in_order(
                todo_views(v@),
            )),
    {
        let status = match &condition.status_code {
            Some(code) => match self.status_by_code(code.as_str()) {
                Ok(s) => Some(s),
                Err(e) => return Err(e),
            },
            None => None,
        };
        let found = match self.todos.find(status) {
            Ok(v) => v,
            Err(e) => return Err(UseCaseError::Repository(e)),
        };
        let ghost found_v = found@.map_values(|t: crate::model::Todo| t@);
        let mut out: Vec<TodoView> = Vec::new();
        let mut rest = found;
        let n = rest.len();
        let mut i: usize = 0;
        while rest.len() > 0
            invariant
                n == found_v.len(),
                i + rest.len() == n,
                todo_views(out@) == found_v.subrange(0, i as int),
                forall|j: int| 0 <= j < rest.len() ==> #[trigger] rest@[j]@ == found_v[i + j],
            decreases rest.len(),
        {
            let t = rest.remove(0);
            let ghost before = out@;
            out.push(TodoView::from_todo(t));
            assert(todo_views(out@) =~= todo_views(before).push(found_v[i as int]));
            assert(found_v.subrange(0, i + 1) =~= found_v.subrange(0, i as int).push(found_v[i as int]));
            i = i + 1;
        }
        assert(found_v.subrange(0, n as int) =~= found_v);
        proof {
            crate::repository::lemma_no_filter_keeps_all(self.rows());
        }
        Ok(out)
    }

    /// Creates a todo with a fresh id and the default status.
    pub fn create_todo(&mut self, source: CreateTodo) -> (r: Result<TodoView, UseCaseError>)
        ensures
            create_todo_post(
                old(self).rows(),
                old(self).todos.default_status(),
                old(self).infallible(),
                source,
                r,
                final(self).rows(),
            ),
            crate::repository::created_in_order(old(self).rows()) ==> crate::repository::created_in_order(final(self).rows()),
            final(self).infallible() == old(self).infallible(),
            final(self).todos.default_status() == old(self).todos.default_status(),
            final(self).statuses == old(self).statuses,
    {
        let todo = NewTodo::new(Id::gen(), source.title, source.description);
        match self.todos.insert(todo) {
            Ok(t) => Ok(TodoView::from_todo(t)),
            Err(e) => Err(UseCaseError::Repository(e)),
        }
    }

    /// Applies a partial update; a status code, when given, must name a status.
    pub fn update_todo(&mut self, source: UpdateTodoView) -> (r: Result<TodoView, UseCaseError>)
        ensures
            update_todo_post(
                old(self).rows(),
                old(self).statuses.statuses(),
                old(self).infallible(),
                source,
                r,
                final(self).rows(),
            ),
            crate::repository::created_in_order(old(self).rows()) ==> crate::repository::created_in_order(final(self).rows()),
            final(self).infallible() == old(self).infallible(),
            final(self).todos.default_status() == old(self).todos.default_status(),
            final(self).statuses == old(self).statuses,
    {
        let status = match &source.status_code {
            Some(code) => match self.status_by_code(code.as_str()) {
                Ok(s) => Some(s),
                Err(e) => return Err(e),
            },
            None => None,
        };
        let id = match Id::<TodoTag>::parse(source.id.as_str()) {
            Ok(id) => id,
            Err(_) => return Err(UseCaseError::InvalidId),
        };
        let update = UpdateTodo::new(id, source.title, source.description, status);
        match self.todos.update(update) {
            Ok(Some(t)) => Ok(TodoView::from_todo(t)),
            Ok(None) => Err(UseCaseError::TodoNotFound),
            Err(e) => Err(UseCaseError::Repository(e)),
        }
    }

    /// Replaces the todo with the id, or creates it; the status code must name a status.
    pub fn upsert_todo(&mut self, source: UpsertTodoView) -> (r: Result<TodoView, UseCaseError>)
        ensures
            upsert_todo_post(
                old(self).rows(),
                old(self).statuses.statuses(),
                old(self).infallible(),
                source,
                r,
                final(self).rows(),
            ),
            crate::repository::created_in_order(old(self).rows()) ==> crate::repository::created_in_order(final(self).rows()),
            final(self).infallible() == old(self).infallible(),
            final(self).todos.default_status() == old(self).todos.default_status(),
            final(self).statuses == old(self).statuses,
    {
        let status = match self.status_by_code(source.status_code.as_str()) {
            Ok(s) => s,
            Err(e) => return Err(e),
        };
        let id = match Id::<TodoTag>::parse(source.id.as_str()) {
            Ok(id) => id,
            Err(_) => return Err(UseCaseError::InvalidId),
        };
        let upsert = UpsertTodo::new(id, source.title, source.description, status);
        match self.todos.upsert(upsert) {
            Ok(t) => Ok(TodoView::from_todo(t)),
            Err(e) => Err(UseCaseError::Repository(e)),
        }
    }

    /// Removes the todo with the id and hands it back, if there is one.
    pub fn delete_todo(&mut self, id: String) -> (r: Result<Option<TodoView>, UseCaseError>)
        ensures
            delete_todo_post(old(self).rows(), old(self).infallible(), id@, r, final(self).rows()),
            crate::repository::created_in_order(old(self).rows()) ==> crate::repository::created_in_order(final(self).rows()),
            final(self).infallible() == old(self).infallible(),
            final(self).todos.default_status() == old(self).todos.default_status(),
            final(self).statuses == old(self).statuses,
    {
        let id = match Id::<TodoTag>::parse(id.as_str()) {
            Ok(id) => id,
            Err(_) => return Err(UseCaseError::InvalidId),
        };
        match self.todos.delete(&id) {
            Ok(Some(t)) => Ok(Some(TodoView::from_todo(t))),
            Ok(None) => Ok(None),
            Err(e) => Err(UseCaseError::Repository(e)),
        }
    }
}

} // verus!
