//! The cross-cutting guarantees of the domain layer, stated and proved
//! once over the spec-level model that every contract speaks of.

use crate::account_repository::has_username;
use crate::account_service::{credentials_good, registered_account};
use crate::model::{
    is_empty_update, same_content, updated_rows, visible_to, Account, RegisterRequest, Task,
    UpdateTaskRequest,
};
use crate::model::deleted_rows;
use crate::task_repository::{
    contains_id, has_visible, task_ids_unique, visible_of,
};
use crate::token::{decoded_claims, token_accepted};
use vstd::prelude::*;

verus! {

/// After a successful registration the store satisfies the condition under
/// which login owes success for the very same credentials: registering and
/// then logging in with the same username and password succeeds.
pub proof fn lemma_register_enables_login(
    before: Seq<Account>,
    after: Seq<Account>,
    input: RegisterRequest,
    id: u128,
    now: i64,
)
    requires
        after == before.push(after.last()),
        registered_account(after.last(), input, id, now),
    ensures
        credentials_good(after, input.username@, input.password@),
{
    let i = after.len() - 1;
    assert(after[i] == after.last());
}

/// A session token carrying an expiry in the future is accepted by the
/// verifier under the secret it was signed with — in particular every
/// freshly issued token, before its expiry.
pub proof fn lemma_fresh_token_accepted(
    token: Seq<char>,
    secret: Seq<u8>,
    sub: u128,
    exp: i64,
    now: i64,
)
    requires
        decoded_claims(token, secret) == Some((sub, exp)),
        now < exp,
    ensures
        token_accepted(token, secret, now),
{
}

/// Enumeration resistance, absent-account half: when no row carries the
/// username, no credentials are good, so login answers with the same
/// `PasswordError` that a wrong password earns.
pub proof fn lemma_unknown_username_not_good(
    rows: Seq<Account>,
    username: Seq<char>,
    password: Seq<char>,
)
    requires
        !has_username(rows, username),
    ensures
        !credentials_good(rows, username, password),
{
    if credentials_good(rows, username, password) {
        let i = choose|i: int|
            0 <= i < rows.len() && crate::account_repository::username_matches(rows[i], username)
                && crate::account_service::account_password_ok(rows[i], password);
        assert(has_username(rows, username));
    }
}

/// Ownership isolation: a task is invisible to every account other than
/// its owner — reads scoped to another account answer `NotFound`, exactly
/// as they do for an id that does not exist.
pub proof fn lemma_ownership_isolation(rows: Seq<Task>, i: int, other: u128)
    requires
        task_ids_unique(rows),
        0 <= i < rows.len(),
        rows[i].account_id != other,
    ensures
        !has_visible(rows, rows[i].id, other),
{
    if has_visible(rows, rows[i].id, other) {
        let j = choose|j: int|
            0 <= j < rows.len() && rows[j].id == rows[i].id && visible_to(rows[j], other);
        if i < j {
            assert(rows[i].id != rows[j].id);
        } else if j < i {
            assert(rows[j].id != rows[i].id);
        }
    }
}

/// An empty partial update is an idempotent no-op on content: every row
/// keeps all its content fields (the addressed row refreshes only its
/// audit pair, and an unaddressed row is untouched entirely).
pub proof fn lemma_empty_update_content(
    rows: Seq<Task>,
    id: u128,
    owner: u128,
    input: UpdateTaskRequest,
    now: i64,
)
    requires
        is_empty_update(input),
    ensures
        updated_rows(rows, id, owner, input, now).len() == rows.len(),
        forall|k: int|
            0 <= k < rows.len() ==> same_content(
                updated_rows(rows, id, owner, input, now)[k],
                rows[k],
            ),
        forall|k: int|
            0 <= k < rows.len() && !(rows[k].id == id && visible_to(rows[k], owner))
                ==> updated_rows(rows, id, owner, input, now)[k] == rows[k],
        forall|k: int|
            0 <= k < rows.len() && rows[k].id == id && visible_to(rows[k], owner)
                ==> updated_rows(rows, id, owner, input, now)[k].updated_at == now
                && updated_rows(rows, id, owner, input, now)[k].updated_by == owner,
{
}

/// Everything a scoped listing surfaces is a stored row that is owned by
/// the viewer and not soft-deleted.
pub proof fn lemma_visible_of_members(rows: Seq<Task>, owner: u128)
    ensures
        forall|t: Task| #[trigger]
            visible_of(rows, owner).contains(t) ==> visible_to(t, owner) && (exists|j: int|
                0 <= j < rows.len() && rows[j] == t),
    decreases rows.len(),
{
    if rows.len() > 0 {
        lemma_visible_of_members(rows.drop_last(), owner);
        assert forall|t: Task| #[trigger]
            visible_of(rows, owner).contains(t) implies visible_to(t, owner) && (exists|j: int|
            0 <= j < rows.len() && rows[j] == t) by {
            let prefix = visible_of(rows.drop_last(), owner);
            if visible_to(rows.last(), owner) {
                assert(visible_of(rows, owner) == prefix.push(rows.last()));
                if t == rows.last() {
                    assert(rows[rows.len() - 1] == t);
                } else {
                    assert(prefix.contains(t));
                    let j = choose|j: int|
                        0 <= j < rows.drop_last().len() && rows.drop_last()[j] == t;
                    assert(rows[j] == t);
                }
            } else {
                assert(prefix.contains(t));
                let j = choose|j: int|
                    0 <= j < rows.drop_last().len() && rows.drop_last()[j] == t;
                assert(rows[j] == t);
            }
        }
    }
}

/// Soft deletion hides the task from everyone, its owner included: after
/// the owner deletes a live task, no scoped read of any account surfaces
/// that id, and no listing of any account contains a row with it.
pub proof fn lemma_delete_hides(rows: Seq<Task>, id: u128, owner: u128, now: i64)
    requires
        task_ids_unique(rows),
        has_visible(rows, id, owner),
    ensures
        forall|viewer: u128| !has_visible(deleted_rows(rows, id, owner, now), id, viewer),
        forall|viewer: u128, t: Task| #[trigger]
            visible_of(deleted_rows(rows, id, owner, now), viewer).contains(t) ==> t.id != id,
{
    let d = deleted_rows(rows, id, owner, now);
    let j = choose|j: int| 0 <= j < rows.len() && rows[j].id == id && visible_to(rows[j], owner);
    assert(d[j].is_deleted);
    assert forall|viewer: u128| !has_visible(d, id, viewer) by {
        if has_visible(d, id, viewer) {
            let k = choose|k: int| 0 <= k < d.len() && d[k].id == id && visible_to(d[k], viewer);
            assert(d[k].id == rows[k].id);
            if k < j {
                assert(rows[k].id != rows[j].id);
            } else if j < k {
                assert(rows[j].id != rows[k].id);
            }
        }
    }
    assert forall|viewer: u128, t: Task| #[trigger]
        visible_of(d, viewer).contains(t) implies t.id != id by {
        lemma_visible_of_members(d, viewer);
        if t.id == id {
            let m = choose|m: int| 0 <= m < d.len() && d[m] == t;
            assert(d[m].id == id && visible_to(d[m], viewer));
            assert(has_visible(d, id, viewer));
        }
    }
}

/// Round trip: a freshly created task is immediately readable by its owner
/// under the returned id, equal to the created record in every field, and
/// appears in the owner's listing.
pub proof fn lemma_create_then_get(rows: Seq<Task>, t: Task, owner: u128)
    requires
        !contains_id(rows, t.id),
        visible_to(t, owner),
    ensures
        has_visible(rows.push(t), t.id, owner),
        forall|k: int|
            0 <= k < rows.push(t).len() && rows.push(t)[k].id == t.id ==> rows.push(t)[k] == t,
        visible_of(rows.push(t), owner).contains(t),
{
    let grown = rows.push(t);
    assert(grown[rows.len() as int] == t);
    assert forall|k: int|
        0 <= k < grown.len() && grown[k].id == t.id implies grown[k] == t by {
        if k < rows.len() {
            assert(rows[k] == grown[k]);
            assert(!(rows[k].id == t.id));
        }
    }
    assert(grown.drop_last() =~= rows);
    assert(grown.last() == t);
    let shown = visible_of(grown, owner);
    assert(shown == visible_of(rows, owner).push(t));
    assert(shown[shown.len() - 1] == t);
}

} // verus!
