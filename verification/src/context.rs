//! Construction of the object graph: each service receives its store at
//! construction, once, at startup; nothing is looked up by type at request
//! time.

use crate::account_repository::AccountRepository;
use crate::account_service::AccountService;
use crate::task_repository::TaskRepository;
use crate::task_service::TaskService;
use vstd::prelude::*;

verus! {

/// The two stores, freshly created and empty.
pub struct Repos {
    pub account: AccountRepository,
    pub task: TaskRepository,
}

impl Repos {
    /// Creates both stores, empty and well-formed.
    pub fn new() -> (r: Self)
        ensures
            r.account@ == Seq::<crate::model::Account>::empty(),
            r.task@ == Seq::<crate::model::Task>::empty(),
            r.account.wf(),
            r.task.wf(),
    {
        Repos { account: AccountRepository::new(), task: TaskRepository::new() }
    }
}

/// The two services, each owning its store.
pub struct Services {
    pub account: AccountService,
    pub task: TaskService,
}

impl Services {
    /// Hands each store to its service.
    pub fn new(repos: Repos) -> (r: Self)
        ensures
            r.account.repo == repos.account,
            r.task.task_repo == repos.task,
    {
        Services {
            account: AccountService::new(repos.account),
            task: TaskService::new(repos.task),
        }
    }
}

/// Everything a request handler needs, assembled once at startup.
pub struct AppContext {
    pub services: Services,
}

impl AppContext {
    /// Assembles the object graph over fresh, empty stores.
    pub fn new() -> (r: Self)
        ensures
            r.services.account.repo@ == Seq::<crate::model::Account>::empty(),
            r.services.task.task_repo@ == Seq::<crate::model::Task>::empty(),
            r.services.account.repo.wf(),
            r.services.task.task_repo.wf(),
    {
        AppContext { services: Services::new(Repos::new()) }
    }
}

} // verus!
