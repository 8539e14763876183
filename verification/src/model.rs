//! Data model of the domain layer.
//!
//! Identifiers are carried as `u128` (the numeric value of a UUID) and
//! timestamps as `i64` seconds, so that every field a rule depends on is a
//! plain value the verifier can reason about. The transport layer converts
//! at the boundary.

use vstd::prelude::*;

verus! {

/// A stored account row: credentials plus the audit quadruple.
#[derive(Debug, PartialEq, Eq)]
pub struct Account {
    pub id: u128,
    pub username: Option<String>,
    pub nickname: String,
    pub password_hash: Option<String>,
    pub role: String,
    pub created_at: i64,
    pub updated_at: i64,
    pub created_by: u128,
    pub updated_by: u128,
    pub is_deleted: bool,
}

impl Clone for Account {
    fn clone(&self) -> (r: Self)
        ensures
            r == *self,
    {
        Account {
            id: self.id,
            username: match &self.username {
                Some(u) => Some(u.clone()),
                None => None,
            },
            nickname: self.nickname.clone(),
            password_hash: match &self.password_hash {
                Some(h) => Some(h.clone()),
                None => None,
            },
            role: self.role.clone(),
            created_at: self.created_at,
            updated_at: self.updated_at,
            created_by: self.created_by,
            updated_by: self.updated_by,
            is_deleted: self.is_deleted,
        }
    }
}

/// A stored task row: content fields, lifecycle state, ownership and audit.
#[derive(Debug, PartialEq, Eq)]
pub struct Task {
    pub id: u128,
    pub account_id: u128,
    pub title: String,
    pub description: Option<String>,
    pub task_type: String,
    pub subject: String,
    pub status: String,
    pub due_date: Option<i64>,
    pub completed_at: Option<i64>,
    pub source: String,
    pub created_at: i64,
    pub updated_at: i64,
    pub created_by: u128,
    pub updated_by: u128,
    pub is_deleted: bool,
}

impl Clone for Task {
    fn clone(&self) -> (r: Self)
        ensures
            r == *self,
    {
        Task {
            id: self.id,
            account_id: self.account_id,
            title: self.title.clone(),
            description: match &self.description {
                Some(d) => Some(d.clone()),
                None => None,
            },
            task_type: self.task_type.clone(),
            subject: self.subject.clone(),
            status: self.status.clone(),
            due_date: self.due_date,
            completed_at: self.completed_at,
            source: self.source.clone(),
            created_at: self.created_at,
            updated_at: self.updated_at,
            created_by: self.created_by,
            updated_by: self.updated_by,
            is_deleted: self.is_deleted,
        }
    }
}

/// Registration input: all three fields are caller-supplied.
#[derive(Debug, Clone)]
pub struct RegisterRequest {
    pub username: String,
    pub password: String,
    pub nickname: String,
}

/// Login input.
#[derive(Debug, Clone)]
pub struct LoginRequest {
    pub username: String,
    pub password: String,
}

/// The public shape of an account (never includes the password hash).
#[derive(Debug, PartialEq, Eq)]
pub struct AccountResponse {
    pub id: u128,
    pub username: Option<String>,
    pub nickname: String,
}

/// What a successful login returns: a bearer token plus the account.
#[derive(Debug)]
pub struct LoginResponse {
    pub access_token: String,
    pub account: AccountResponse,
}

/// The claims carried by a session token: subject and absolute expiry.
#[derive(Debug, Clone, Copy, PartialEq, Eq, Structural)]
pub struct Claims {
    pub sub: u128,
    pub exp: i64,
}

/// Task creation input; `title` is required to be non-empty by caller contract.
#[derive(Debug)]
pub struct CreateTaskRequest {
    pub title: String,
    pub description: Option<String>,
    pub task_type: String,
    pub subject: String,
    pub due_date: Option<i64>,
}

/// Partial update input: a present field overwrites, an absent one is kept.
#[derive(Debug)]
pub struct UpdateTaskRequest {
    pub title: Option<String>,
    pub description: Option<String>,
    pub task_type: Option<String>,
    pub subject: Option<String>,
    pub status: Option<String>,
    pub due_date: Option<i64>,
}

/// The public shape of a task.
#[derive(Debug, PartialEq, Eq)]
pub struct TaskResponse {
    pub id: u128,
    pub title: String,
    pub description: Option<String>,
    pub task_type: String,
    pub subject: String,
    pub status: String,
    pub due_date: Option<i64>,
    pub completed_at: Option<i64>,
    pub created_at: i64,
}

impl vstd::std_specs::convert::FromSpecImpl<Task> for TaskResponse {
    open spec fn obeys_from_spec() -> bool {
        true
    }

    open spec fn from_spec(t: Task) -> Self {
        TaskResponse {
            id: t.id,
            title: t.title,
            description: t.description,
            task_type: t.task_type,
            subject: t.subject,
            status: t.status,
            due_date: t.due_date,
            completed_at: t.completed_at,
            created_at: t.created_at,
        }
    }
}

impl From<Task> for TaskResponse {
    /// Projects a stored task onto its public shape.
    fn from(t: Task) -> (r: Self) {
        TaskResponse {
            id: t.id,
            title: t.title,
            description: t.description,
            task_type: t.task_type,
            subject: t.subject,
            status: t.status,
            due_date: t.due_date,
            completed_at: t.completed_at,
            created_at: t.created_at,
        }
    }
}

/// Whether a task row is returned by reads scoped to `owner`: it must be
/// owned by `owner` and not soft-deleted.
pub open spec fn visible_to(t: Task, owner: u128) -> bool {
    t.account_id == owner && !t.is_deleted
}

/// Whether a freshly created task row has exactly the fields the lifecycle
/// rules prescribe: caller-supplied content, `active`/`manual` defaults, no
/// completion time, self-stamped audit fields, not deleted.
pub open spec fn fresh_task_fields(
    t: Task,
    id: u128,
    owner: u128,
    input: CreateTaskRequest,
    created_at: i64,
    updated_at: i64,
) -> bool {
    &&& t.id == id
    &&& t.account_id == owner
    &&& t.title == input.title
    &&& t.description == input.description
    &&& t.task_type == input.task_type
    &&& t.subject == input.subject
    &&& t.status@ == "active"@
    &&& t.due_date == input.due_date
    &&& t.completed_at is None
    &&& t.source@ == "manual"@
    &&& t.created_at == created_at
    &&& t.updated_at == updated_at
    &&& t.created_by == owner
    &&& t.updated_by == owner
    &&& !t.is_deleted
}

/// Whether an update input changes nothing (every field absent).
pub open spec fn is_empty_update(input: UpdateTaskRequest) -> bool {
    &&& input.title is None
    &&& input.description is None
    &&& input.task_type is None
    &&& input.subject is None
    &&& input.status is None
    &&& input.due_date is None
}

/// The coalesce-on-write merge of a partial update into a task row: a
/// present field overwrites, an absent one is retained, and the audit pair
/// is always refreshed.
pub open spec fn coalesced(t: Task, input: UpdateTaskRequest, owner: u128, now: i64) -> Task {
    Task {
        title: match input.title {
            Some(s) => s,
            None => t.title,
        },
        description: match input.description {
            Some(s) => Some(s),
            None => t.description,
        },
        task_type: match input.task_type {
            Some(s) => s,
            None => t.task_type,
        },
        subject: match input.subject {
            Some(s) => s,
            None => t.subject,
        },
        status: match input.status {
            Some(s) => s,
            None => t.status,
        },
        due_date: match input.due_date {
            Some(d) => Some(d),
            None => t.due_date,
        },
        updated_at: now,
        updated_by: owner,
        ..t
    }
}

/// One row of an ownership-scoped update: the row addressed by `id` and
/// `owner` (and not soft-deleted) is merged with the input, every other row
/// is untouched.
pub open spec fn updated_row(
    t: Task,
    id: u128,
    owner: u128,
    input: UpdateTaskRequest,
    now: i64,
) -> Task {
    if t.id == id && visible_to(t, owner) {
        coalesced(t, input, owner, now)
    } else {
        t
    }
}

/// The whole store after an ownership-scoped update: a no-op when no row
/// matches.
pub open spec fn updated_rows(
    rows: Seq<Task>,
    id: u128,
    owner: u128,
    input: UpdateTaskRequest,
    now: i64,
) -> Seq<Task> {
    rows.map_values(|t: Task| updated_row(t, id, owner, input, now))
}

/// One row of an ownership-scoped soft delete: the addressed row has its
/// deletion flag set and its audit pair refreshed; deletion is terminal.
pub open spec fn deleted_row(t: Task, id: u128, owner: u128, now: i64) -> Task {
    if t.id == id && visible_to(t, owner) {
        Task { is_deleted: true, updated_at: now, updated_by: owner, ..t }
    } else {
        t
    }
}

/// The whole store after an ownership-scoped soft delete.
pub open spec fn deleted_rows(rows: Seq<Task>, id: u128, owner: u128, now: i64) -> Seq<Task> {
    rows.map_values(|t: Task| deleted_row(t, id, owner, now))
}

/// Whether two task rows agree on everything except the audit pair
/// `updated_at`/`updated_by` — the shape an empty update leaves behind.
pub open spec fn same_content(a: Task, b: Task) -> bool {
    &&& a.id == b.id
    &&& a.account_id == b.account_id
    &&& a.title == b.title
    &&& a.description == b.description
    &&& a.task_type == b.task_type
    &&& a.subject == b.subject
    &&& a.status == b.status
    &&& a.due_date == b.due_date
    &&& a.completed_at == b.completed_at
    &&& a.source == b.source
    &&& a.created_at == b.created_at
    &&& a.created_by == b.created_by
    &&& a.is_deleted == b.is_deleted
}

} // verus!
