//! The task ownership service: task CRUD scoped to the authenticated owner.
//!
//! Every operation takes the caller's account identity and reaches only
//! rows owned by it. The service draws the fresh task id and the current
//! time itself and hands both to the store, whose contracts are exact in
//! them.

use crate::ambient::{current_timestamp, fresh_uuid};
use crate::error::AppError;
use crate::model::{fresh_task_fields, visible_to, CreateTaskRequest, Task, UpdateTaskRequest};
use crate::task_repository::{
    contains_id, has_visible, sorted_by_created_desc, visible_of, TaskRepository,
};
use vstd::prelude::*;

verus! {

/// The service owns its store; the transport layer constructs it once at
/// startup and routes every task operation through it.
pub struct TaskService {
    pub task_repo: TaskRepository,
}

impl TaskService {
    /// Wraps a task store.
    pub fn new(task_repo: TaskRepository) -> (r: Self)
        ensures
            r.task_repo == task_repo,
    {
        TaskService { task_repo }
    }

    /// Creates a task for `account_id` from the caller-supplied content,
    /// with a fresh identifier and the current time for both audit stamps.
    /// Fails only as the store does — on a clash with a stored id, whatever
    /// identifier was drawn — with the generic `Internal` kind; on an empty
    /// store it always succeeds.
    pub fn create(&mut self, account_id: u128, input: &CreateTaskRequest) -> (r: Result<
        Task,
        AppError,
    >)
        requires
            old(self).task_repo.wf(),
            input.title@.len() > 0,
        ensures
            final(self).task_repo.wf(),
            r matches Ok(t) ==> fresh_task_fields(t, t.id, account_id, *input, t.created_at,
                t.created_at) && final(self).task_repo@ == old(self).task_repo@.push(t)
                && !contains_id(old(self).task_repo@, t.id),
            r matches Err(e) ==> e is Internal && final(self).task_repo@ == old(
                self,
            ).task_repo@ && old(self).task_repo@.len() > 0,
    {
        let uid = fresh_uuid();
        let now = current_timestamp();
        let r = self.task_repo.insert(uid, account_id, now, now, input);
        proof {
            if r is Err {
                let i = choose|i: int|
                    0 <= i < old(self).task_repo@.len() && old(self).task_repo@[i].id == uid;
            }
        }
        r
    }

    /// Fetches one task by id, scoped to the caller: a task of another
    /// account, a soft-deleted task and a nonexistent id are all the same
    /// `NotFound`.
    pub fn get_by_task_id_account_id(&self, task_id: u128, account_id: u128) -> (r: Result<
        Task,
        AppError,
    >)
        ensures
            r matches Ok(t) ==> (exists|i: int|
                0 <= i < self.task_repo@.len() && self.task_repo@[i] == t) && t.id == task_id
                && visible_to(t, account_id),
            r matches Err(e) ==> e is NotFound && !has_visible(
                self.task_repo@,
                task_id,
                account_id,
            ),
    {
        self.task_repo.find_by_id_and_account(task_id, account_id)
    }

    /// Lists the caller's live tasks, most recently created first; never an
    /// error.
    pub fn get_task_list_by_account_id(&self, account_id: u128) -> (r: Result<
        Vec<Task>,
        AppError,
    >)
        ensures
            r matches Ok(v) ==> v@.to_multiset() == visible_of(
                self.task_repo@,
                account_id,
            ).to_multiset() && sorted_by_created_desc(v@),
            r is Ok,
    {
        self.task_repo.find_all_by_account(account_id)
    }

    /// Applies a partial update to the caller's task at the current time:
    /// present fields overwrite, absent fields are kept, the audit pair is
    /// refreshed. A mismatch (wrong owner, soft-deleted or nonexistent id)
    /// is a silent no-op.
    pub fn update_by_task_id_account_id(
        &mut self,
        task_id: u128,
        account_id: u128,
        input: &UpdateTaskRequest,
    ) -> (r: Result<(), AppError>)
        requires
            old(self).task_repo.wf(),
        ensures
            final(self).task_repo.wf(),
            r is Ok,
            exists|now: i64|
                final(self).task_repo@ == crate::model::updated_rows(
                    old(self).task_repo@,
                    task_id,
                    account_id,
                    *input,
                    now,
                ),
    {
        let now = current_timestamp();
        self.task_repo.update(task_id, account_id, input, now)
    }

    /// Soft-deletes the caller's task at the current time; the flag flip is
    /// terminal, and a mismatch is a silent no-op.
    pub fn delete_by_task_id_account_id(&mut self, task_id: u128, account_id: u128) -> (r:
        Result<(), AppError>)
        requires
            old(self).task_repo.wf(),
        ensures
            final(self).task_repo.wf(),
            r is Ok,
            exists|now: i64|
                final(self).task_repo@ == crate::model::deleted_rows(
                    old(self).task_repo@,
                    task_id,
                    account_id,
                    now,
                ),
    {
        let now = current_timestamp();
        self.task_repo.delete(task_id, account_id, now)
    }
}

} // verus!
