//! Wiring of repositories and use cases.

use crate::id::Id;
use crate::memory::{TodoRepositoryImpl, TodoStatusRepositoryImpl, UserRepositoryImpl};
use crate::model::TodoStatus;
use crate::repository::{TodoRepository, TodoStatusRepository, UserRepository};
use crate::usecase::{TodoUseCase, UserUseCase};
use vstd::prelude::*;

verus! {

/// The repositories of the application.
pub struct RepositoriesModule {
    user_repository: UserRepositoryImpl,
    todo_repository: TodoRepositoryImpl,
    todo_status_repository: TodoStatusRepositoryImpl,
}

/// Access to the repositories of a module.
pub trait RepositoriesModuleExt {
    type UserRepo: UserRepository;
    type TodoRepo: TodoRepository;
    type TodoStatusRepo: TodoStatusRepository;

    fn user_repository(&self) -> &Self::UserRepo;

    fn todo_repository(&self) -> &Self::TodoRepo;

    fn todo_status_repository(&self) -> &Self::TodoStatusRepo;
}

impl RepositoriesModuleExt for RepositoriesModule {
    type UserRepo = UserRepositoryImpl;
    type TodoRepo = TodoRepositoryImpl;
    type TodoStatusRepo = TodoStatusRepositoryImpl;

    fn user_repository(&self) -> &UserRepositoryImpl {
        &self.user_repository
    }

    fn todo_repository(&self) -> &TodoRepositoryImpl {
        &self.todo_repository
    }

    fn todo_status_repository(&self) -> &TodoStatusRepositoryImpl {
        &self.todo_status_repository
    }
}

impl RepositoriesModule {
    pub closed spec fn users(&self) -> Seq<crate::model::UserV> {
        self.user_repository.users()
    }

    pub closed spec fn todos(&self) -> Seq<crate::model::TodoV> {
        self.todo_repository.todos()
    }

    pub closed spec fn statuses(&self) -> Seq<crate::model::StatusV> {
        self.todo_status_repository.statuses()
    }

    pub closed spec fn default_status(&self) -> crate::model::StatusV {
        self.todo_repository.default_status()
    }

    /// Empty tables of users and todos, and the statuses `open` (the default
    /// of new todos) and `done`.
    pub fn new() -> (r: Self)
        ensures
            r.users().len() == 0,
            r.todos().len() == 0,
            r.statuses().len() == 2,
            r.statuses()[0].code == "open"@,
            r.statuses()[1].code == "done"@,
            r.default_status() == r.statuses()[0],
    {
        let open = TodoStatus::new(Id::gen(), String::from_str("open"), String::from_str("Open"));
        let done = TodoStatus::new(Id::gen(), String::from_str("done"), String::from_str("Done"));
        let default_status = open.clone_status();
        let mut statuses: Vec<TodoStatus> = Vec::new();
        statuses.push(open);
        statuses.push(done);
        let user_repository = UserRepositoryImpl::new();
        let todo_repository = TodoRepositoryImpl::new(default_status);
        let todo_status_repository = TodoStatusRepositoryImpl::new(statuses);
        RepositoriesModule { user_repository, todo_repository, todo_status_repository }
    }

    /// The use cases over these repositories.
    pub fn into_use_cases(self) -> (r: (UserUseCase<UserRepositoryImpl>, TodoUseCase<TodoRepositoryImpl, TodoStatusRepositoryImpl>))
        ensures
            r.0.users() == self.users(),
            r.1.rows() == self.todos(),
            r.1.statuses.statuses() == self.statuses(),
            r.1.todos.default_status() == self.default_status(),
    {
        (UserUseCase::new(self.user_repository), TodoUseCase::new(self.todo_repository, self.todo_status_repository))
    }
}

} // verus!
