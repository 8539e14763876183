//! The task store: ownership-scoped reads and writes with soft deletion.
//!
//! Stands in for the relational store behind the task table. Every read is
//! scoped by owner and excludes soft-deleted rows; every write is scoped by
//! task id and owner and is a silent no-op when no row matches. Listing
//! returns the owner's live tasks ordered by creation time, most recent
//! first.

use crate::error::AppError;
use crate::model::{visible_to, CreateTaskRequest, Task, UpdateTaskRequest};
use crate::model::{coalesced, deleted_row, deleted_rows, fresh_task_fields, updated_row,
    updated_rows};
use vstd::pervasive::VecAdditionalExecFns;
use vstd::prelude::*;
use vstd::multiset::Multiset;
use vstd::seq_lib::group_to_multiset_ensures;

verus! {

/// Whether some row of `rows` (deleted or not, any owner) has this id.
pub open spec fn contains_id(rows: Seq<Task>, id: u128) -> bool {
    exists|i: int| 0 <= i < rows.len() && rows[i].id == id
}

/// Whether `rows` holds a row with this id that is visible to `owner`.
pub open spec fn has_visible(rows: Seq<Task>, id: u128, owner: u128) -> bool {
    exists|i: int| 0 <= i < rows.len() && rows[i].id == id && visible_to(rows[i], owner)
}

/// The subsequence of rows visible to `owner`, in storage order.
pub open spec fn visible_of(rows: Seq<Task>, owner: u128) -> Seq<Task>
    decreases rows.len(),
{
    if rows.len() == 0 {
        Seq::<Task>::empty()
    } else if visible_to(rows.last(), owner) {
        visible_of(rows.drop_last(), owner).push(rows.last())
    } else {
        visible_of(rows.drop_last(), owner)
    }
}

/// Whether task ids are pairwise distinct across `rows`.
pub open spec fn task_ids_unique(rows: Seq<Task>) -> bool {
    forall|i: int, j: int| 0 <= i < j < rows.len() ==> rows[i].id != rows[j].id
}

/// Whether `s` is ordered by creation time descending (most recent first).
pub open spec fn sorted_by_created_desc(s: Seq<Task>) -> bool {
    forall|i: int, j: int| 0 <= i < j < s.len() ==> s[i].created_at >= s[j].created_at
}

/// The task store. Its abstract state is the sequence of rows, in insertion
/// order, soft-deleted rows included.
pub struct TaskRepository {
    tasks: Vec<Task>,
}

impl View for TaskRepository {
    type V = Seq<Task>;

    closed spec fn view(&self) -> Seq<Task> {
        self.tasks@
    }
}

impl TaskRepository {
    /// Well-formedness: task ids are pairwise distinct, deleted rows
    /// included.
    pub open spec fn wf(self) -> bool {
        task_ids_unique(self@)
    }

    /// An empty store.
    pub fn new() -> (r: Self)
        ensures
            r@ == Seq::<Task>::empty(),
            r.wf(),
    {
        TaskRepository { tasks: Vec::new() }
    }

    /// Appends a freshly created task row: caller-supplied content, status
    /// `active`, source `manual`, no completion time, audit fields stamped
    /// with the owner and the given times, not deleted. A clash on the id
    /// surfaces as the generic `Internal` kind, as the unique constraint of
    /// the backing store would.
    pub fn insert(
        &mut self,
        uid: u128,
        account_id: u128,
        created_at: i64,
        updated_at: i64,
        input: &CreateTaskRequest,
    ) -> (r: Result<Task, AppError>)
        requires
            old(self).wf(),
            input.title@.len() > 0,
        ensures
            final(self).wf(),
            r matches Ok(t) ==> fresh_task_fields(t, uid, account_id, *input, created_at,
                updated_at) && final(self)@ == old(self)@.push(t) && !contains_id(
                old(self)@,
                uid,
            ),
            r matches Err(e) ==> e is Internal && final(self)@ == old(self)@ && contains_id(
                old(self)@,
                uid,
            ),
    {
        let n = self.tasks.len();
        let mut i: usize = 0;
        while i < n
            invariant
                n == self.tasks.len(),
                0 <= i <= n,
                self@ == old(self)@,
                old(self).wf(),
                forall|k: int| 0 <= k < i ==> self.tasks@[k].id != uid,
            decreases n - i,
        {
            if self.tasks[i].id == uid {
                return Err(AppError::Internal);
            }
            i += 1;
        }
        let t = Task {
            id: uid,
            account_id,
            title: input.title.clone(),
            description: match &input.description {
                Some(d) => Some(d.clone()),
                None => None,
            },
            task_type: input.task_type.clone(),
            subject: input.subject.clone(),
            status: "active".to_owned(),
            due_date: input.due_date,
            completed_at: None,
            source: "manual".to_owned(),
            created_at,
            updated_at,
            created_by: account_id,
            updated_by: account_id,
            is_deleted: false,
        };
        let ghost prior = self@;
        let row = t.clone();
        self.tasks.push(row);
        proof {
            assert(self@ =~= prior.push(t));
            assert forall|i: int, j: int|
                0 <= i < j < self@.len() implies self@[i].id != self@[j].id by {
                if j < prior.len() {
                    assert(prior[i].id != prior[j].id);
                } else {
                    assert(self@[j] == t);
                    assert(prior[i].id != uid);
                }
            }
        }
        Ok(t)
    }

    /// Looks a task up by id, scoped to `account_id`: soft-deleted rows and
    /// rows owned by other accounts are indistinguishable from absent ones.
    pub fn find_by_id_and_account(&self, task_id: u128, account_id: u128) -> (r: Result<
        Task,
        AppError,
    >)
        ensures
            r matches Ok(t) ==> (exists|i: int| 0 <= i < self@.len() && self@[i] == t)
                && t.id == task_id && visible_to(t, account_id),
            r matches Err(e) ==> e is NotFound && !has_visible(self@, task_id, account_id),
    {
        let n = self.tasks.len();
        let mut i: usize = 0;
        while i < n
            invariant
                n == self.tasks.len(),
                0 <= i <= n,
                forall|k: int|
                    0 <= k < i ==> !(self.tasks@[k].id == task_id && visible_to(
                        self.tasks@[k],
                        account_id,
                    )),
            decreases n - i,
        {
            if self.tasks[i].id == task_id && self.tasks[i].account_id == account_id
                && !self.tasks[i].is_deleted {
                let t = self.tasks[i].clone();
                assert(t == self@[i as int]);
                return Ok(t);
            }
            i += 1;
        }
        Err(AppError::NotFound)
    }

    /// Lists every task visible to `account_id`, ordered by creation time
    /// descending. Never an error: an owner without tasks gets the empty
    /// sequence.
    pub fn find_all_by_account(&self, account_id: u128) -> (r: Result<Vec<Task>, AppError>)
        ensures
            r matches Ok(v) ==> v@.to_multiset() == visible_of(self@, account_id).to_multiset()
                && sorted_by_created_desc(v@),
            r is Ok,
    {
        let mut picked: Vec<Task> = Vec::new();
        let n = self.tasks.len();
        let mut i: usize = 0;
        while i < n
            invariant
                n == self.tasks.len(),
                0 <= i <= n,
                picked@ == visible_of(self.tasks@.take(i as int), account_id),
            decreases n - i,
        {
            let ghost pre = self.tasks@.take(i as int);
            if self.tasks[i].account_id == account_id && !self.tasks[i].is_deleted {
                let t = self.tasks[i].clone();
                picked.push(t);
            }
            proof {
                let post = self.tasks@.take(i as int + 1);
                assert(post.drop_last() =~= pre);
                assert(post.last() == self.tasks@[i as int]);
            }
            i += 1;
        }
        proof {
            assert(self.tasks@.take(n as int) =~= self.tasks@);
        }
        Ok(sort_by_created_desc(picked))
    }

    /// The ownership-scoped coalescing update: the row addressed by id and
    /// owner (if any, and not soft-deleted) takes the present input fields
    /// and a refreshed audit pair; no matching row means a silent no-op.
    pub fn update(
        &mut self,
        task_id: u128,
        account_id: u128,
        input: &UpdateTaskRequest,
        now: i64,
    ) -> (r: Result<(), AppError>)
        requires
            old(self).wf(),
        ensures
            final(self).wf(),
            r is Ok,
            final(self)@ == updated_rows(old(self)@, task_id, account_id, *input, now),
    {
        let n = self.tasks.len();
        let mut i: usize = 0;
        while i < n
            invariant
                n == self.tasks.len(),
                0 <= i <= n,
                self@ == old(self)@,
                old(self).wf(),
                forall|k: int|
                    0 <= k < i ==> !(self.tasks@[k].id == task_id && visible_to(
                        self.tasks@[k],
                        account_id,
                    )),
            decreases n - i,
        {
            if self.tasks[i].id == task_id && self.tasks[i].account_id == account_id
                && !self.tasks[i].is_deleted {
                let row = &self.tasks[i];
                let merged = Task {
                    id: row.id,
                    account_id: row.account_id,
                    title: match &input.title {
                        Some(s) => s.clone(),
                        None => row.title.clone(),
                    },
                    description: match &input.description {
                        Some(s) => Some(s.clone()),
                        None => match &row.description {
                            Some(d) => Some(d.clone()),
                            None => None,
                        },
                    },
                    task_type: match &input.task_type {
                        Some(s) => s.clone(),
                        None => row.task_type.clone(),
                    },
                    subject: match &input.subject {
                        Some(s) => s.clone(),
                        None => row.subject.clone(),
                    },
                    status: match &input.status {
                        Some(s) => s.clone(),
                        None => row.status.clone(),
                    },
                    due_date: match input.due_date {
                        Some(d) => Some(d),
                        None => row.due_date,
                    },
                    completed_at: row.completed_at,
                    source: row.source.clone(),
                    created_at: row.created_at,
                    updated_at: now,
                    created_by: row.created_by,
                    updated_by: account_id,
                    is_deleted: row.is_deleted,
                };
                let ghost prior = self@;
                let ghost idx = i as int;
                proof {
                    assert(merged == coalesced(prior[idx], *input, account_id, now));
                }
                self.tasks.set(i, merged);
                proof {
                    assert forall|k: int| 0 <= k < self@.len() implies self@[k] == updated_rows(
                        prior,
                        task_id,
                        account_id,
                        *input,
                        now,
                    )[k] by {
                        if k != idx {
                            assert(prior[k].id != prior[idx].id);
                            assert(updated_row(prior[k], task_id, account_id, *input, now)
                                == prior[k]);
                        }
                    }
                    assert(self@ =~= updated_rows(prior, task_id, account_id, *input, now));
                    assert forall|a: int, b: int|
                        0 <= a < b < self@.len() implies self@[a].id != self@[b].id by {
                        assert(prior[a].id != prior[b].id);
                    }
                }
                return Ok(());
            }
            i += 1;
        }
        proof {
            assert forall|k: int| 0 <= k < self@.len() implies updated_row(
                self@[k],
                task_id,
                account_id,
                *input,
                now,
            ) == self@[k] by {}
            assert(updated_rows(self@, task_id, account_id, *input, now) =~= self@);
        }
        Ok(())
    }

    /// The ownership-scoped soft delete: the addressed row (if any, and not
    /// already deleted) has its deletion flag set and its audit pair
    /// refreshed; deletion is terminal, and a mismatch is a silent no-op.
    pub fn delete(&mut self, task_id: u128, account_id: u128, now: i64) -> (r: Result<
        (),
        AppError,
    >)
        requires
            old(self).wf(),
        ensures
            final(self).wf(),
            r is Ok,
            final(self)@ == deleted_rows(old(self)@, task_id, account_id, now),
    {
        let n = self.tasks.len();
        let mut i: usize = 0;
        while i < n
            invariant
                n == self.tasks.len(),
                0 <= i <= n,
                self@ == old(self)@,
                old(self).wf(),
                forall|k: int|
                    0 <= k < i ==> !(self.tasks@[k].id == task_id && visible_to(
                        self.tasks@[k],
                        account_id,
                    )),
            decreases n - i,
        {
            if self.tasks[i].id == task_id && self.tasks[i].account_id == account_id
                && !self.tasks[i].is_deleted {
                let row = &self.tasks[i];
                let gone = Task {
                    id: row.id,
                    account_id: row.account_id,
                    title: row.title.clone(),
                    description: match &row.description {
                        Some(d) => Some(d.clone()),
                        None => None,
                    },
                    task_type: row.task_type.clone(),
                    subject: row.subject.clone(),
                    status: row.status.clone(),
                    due_date: row.due_date,
                    completed_at: row.completed_at,
                    source: row.source.clone(),
                    created_at: row.created_at,
                    updated_at: now,
                    created_by: row.created_by,
                    updated_by: account_id,
                    is_deleted: true,
                };
                let ghost prior = self@;
                let ghost idx = i as int;
                proof {
                    assert(gone == deleted_row(prior[idx], task_id, account_id, now));
                }
                self.tasks.set(i, gone);
                proof {
                    assert forall|k: int| 0 <= k < self@.len() implies self@[k] == deleted_rows(
                        prior,
                        task_id,
                        account_id,
                        now,
                    )[k] by {
                        if k != idx {
                            assert(prior[k].id != prior[idx].id);
                            assert(deleted_row(prior[k], task_id, account_id, now) == prior[k]);
                        }
                    }
                    assert(self@ =~= deleted_rows(prior, task_id, account_id, now));
                    assert forall|a: int, b: int|
                        0 <= a < b < self@.len() implies self@[a].id != self@[b].id by {
                        assert(prior[a].id != prior[b].id);
                    }
                }
                return Ok(());
            }
            i += 1;
        }
        proof {
            assert forall|k: int| 0 <= k < self@.len() implies deleted_row(
                self@[k],
                task_id,
                account_id,
                now,
            ) == self@[k] by {}
            assert(deleted_rows(self@, task_id, account_id, now) =~= self@);
        }
        Ok(())
    }
}

/// Insertion sort by creation time, descending. Order among rows with equal
/// creation times is unspecified, as it is for the backing store.
fn sort_by_created_desc(mut v: Vec<Task>) -> (r: Vec<Task>)
    ensures
        r@.to_multiset() == v@.to_multiset(),
        sorted_by_created_desc(r@),
{
    let ghost orig = v@;
    let mut rest = v;
    let mut out: Vec<Task> = Vec::new();
    proof {
        assert(orig == rest@);
    }
    proof {
        broadcast use group_to_multiset_ensures;

        assert(out@.to_multiset().add(rest@.to_multiset()) =~= orig.to_multiset());
    }
    loop
        invariant
            orig == v@,
            out@.to_multiset().add(rest@.to_multiset()) == orig.to_multiset(),
            sorted_by_created_desc(out@),
        decreases rest@.len(),
    {
        let ghost rest_pre = rest@;
        let t = match rest.pop() {
            Some(t) => t,
            None => {
                proof {
                    broadcast use group_to_multiset_ensures;
                    broadcast use vstd::multiset::group_multiset_axioms;

                    assert(rest_pre.to_multiset() =~= Multiset::<Task>::empty());
                    assert(out@.to_multiset() =~= orig.to_multiset());
                    assert(out@.to_multiset() == orig.to_multiset());
                }
                return out;
            },
        };
        proof {
            broadcast use group_to_multiset_ensures;
            broadcast use vstd::multiset::group_multiset_axioms;

            assert(rest@ =~= rest_pre.remove(rest_pre.len() - 1));
            assert(rest_pre[rest_pre.len() - 1] == t);
        }
        let m = out.len();
        let mut j: usize = 0;
        while j < m && out[j].created_at >= t.created_at
            invariant
                m == out.len(),
                0 <= j <= m,
                forall|k: int| 0 <= k < j ==> out@[k].created_at >= t.created_at,
            decreases m - j,
        {
            j += 1;
        }
        let ghost out_pre = out@;
        out.insert(j, t);
        proof {
            broadcast use group_to_multiset_ensures;

            out_pre.insert_ensures(j as int, t);
            assert forall|a: int, b: int|
                0 <= a < b < out@.len() implies out@[a].created_at >= out@[b].created_at by {
                let ji = j as int;
                if b < ji {
                    assert(out@[a] == out_pre[a] && out@[b] == out_pre[b]);
                } else if b == ji {
                    assert(out@[b] == t && out@[a] == out_pre[a]);
                } else if a < ji {
                    assert(out@[a] == out_pre[a] && out@[b] == out_pre[b - 1]);
                    if a < b - 1 {
                        assert(out_pre[a].created_at >= out_pre[b - 1].created_at);
                    }
                } else if a == ji {
                    assert(out@[a] == t && out@[b] == out_pre[b - 1]);
                    assert(ji < m && out_pre[ji].created_at < t.created_at);
                    if ji < b - 1 {
                        assert(out_pre[ji].created_at >= out_pre[b - 1].created_at);
                    }
                } else {
                    assert(out@[a] == out_pre[a - 1] && out@[b] == out_pre[b - 1]);
                }
            }
        }
    }
}

} // verus!
