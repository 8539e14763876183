//! The credential store: account rows under two uniqueness invariants.
//!
//! Stands in for the relational store behind the account table; the unique
//! constraints on `username` and on the identifier are enforced on insert,
//! and lookup is by username. Accounts are never deleted by the operations
//! in scope.

use crate::error::AppError;
use crate::model::Account;
use vstd::prelude::*;

verus! {

/// Whether `a`'s username is present and reads `name`.
pub open spec fn username_matches(a: Account, name: Seq<char>) -> bool {
    match a.username {
        Some(u) => u@ == name,
        None => false,
    }
}

/// Whether `a` and `b` both carry a username and the two read the same.
pub open spec fn same_username(a: Account, b: Account) -> bool {
    match a.username {
        Some(u) => username_matches(b, u@),
        None => false,
    }
}

/// Whether some row of `rows` carries username `name`.
pub open spec fn has_username(rows: Seq<Account>, name: Seq<char>) -> bool {
    exists|i: int| 0 <= i < rows.len() && username_matches(rows[i], name)
}

/// Whether no two rows of `rows` carry the same username.
pub open spec fn usernames_unique(rows: Seq<Account>) -> bool {
    forall|i: int, j: int| 0 <= i < j < rows.len() ==> !same_username(rows[i], rows[j])
}

/// Whether account identifiers are pairwise distinct across `rows`.
pub open spec fn account_ids_unique(rows: Seq<Account>) -> bool {
    forall|i: int, j: int| 0 <= i < j < rows.len() ==> rows[i].id != rows[j].id
}

/// Whether some row of `rows` carries this identifier.
pub open spec fn has_account_id(rows: Seq<Account>, id: u128) -> bool {
    exists|i: int| 0 <= i < rows.len() && rows[i].id == id
}

/// Under the uniqueness invariant, at most one row matches a username: two
/// matching indices coincide.
pub proof fn lemma_username_unique(rows: Seq<Account>, name: Seq<char>, i: int, j: int)
    requires
        usernames_unique(rows),
        0 <= i < rows.len(),
        0 <= j < rows.len(),
        username_matches(rows[i], name),
        username_matches(rows[j], name),
    ensures
        i == j,
{
    if i < j {
        assert(same_username(rows[i], rows[j]));
    } else if j < i {
        assert(same_username(rows[j], rows[i]));
    }
}

/// The account store. Its abstract state is the sequence of rows, in
/// insertion order.
pub struct AccountRepository {
    accounts: Vec<Account>,
}

impl View for AccountRepository {
    type V = Seq<Account>;

    closed spec fn view(&self) -> Seq<Account> {
        self.accounts@
    }
}

impl AccountRepository {
    /// Well-formedness: no two rows carry the same username (multiple rows
    /// without a username are allowed), and no two rows share an
    /// identifier.
    pub open spec fn wf(self) -> bool {
        usernames_unique(self@) && account_ids_unique(self@)
    }

    /// An empty store.
    pub fn new() -> (r: Self)
        ensures
            r@ == Seq::<Account>::empty(),
            r.wf(),
    {
        AccountRepository { accounts: Vec::new() }
    }

    /// Appends `account` unless its username or its identifier is already
    /// taken; either unique constraint surfaces as the generic `Internal`
    /// kind, as any other storage failure would.
    pub fn insert(&mut self, account: Account) -> (r: Result<(), AppError>)
        requires
            old(self).wf(),
        ensures
            final(self).wf(),
            r matches Ok(()) ==> final(self)@ == old(self)@.push(account) && (forall|i: int|
                0 <= i < old(self)@.len() ==> !same_username(account, old(self)@[i])
                    && old(self)@[i].id != account.id),
            r matches Err(e) ==> e is Internal && final(self)@ == old(self)@ && (exists|i: int|
                0 <= i < old(self)@.len() && (same_username(account, old(self)@[i])
                    || old(self)@[i].id == account.id)),
    {
        let n_rows = self.accounts.len();
        let mut k: usize = 0;
        while k < n_rows
            invariant
                n_rows == self.accounts.len(),
                0 <= k <= n_rows,
                self@ == old(self)@,
                old(self).wf(),
                forall|j: int| 0 <= j < k ==> self.accounts@[j].id != account.id,
            decreases n_rows - k,
        {
            if self.accounts[k].id == account.id {
                return Err(AppError::Internal);
            }
            k += 1;
        }
        if let Some(name) = &account.username {
            let n = self.accounts.len();
            let mut i: usize = 0;
            while i < n
                invariant
                    n == self.accounts.len(),
                    0 <= i <= n,
                    self@ == old(self)@,
                    old(self).wf(),
                    account.username == Some(*name),
                    forall|k: int| 0 <= k < i ==> !username_matches(self.accounts@[k], name@),
                    forall|k: int| 0 <= k < n ==> self.accounts@[k].id != account.id,
                decreases n - i,
            {
                match &self.accounts[i].username {
                    Some(u) => {
                        if *u == *name {
                            proof {
                                let row = self.accounts@[i as int];
                                assert(username_matches(row, name@));
                                assert(same_username(account, row));
                            }
                            return Err(AppError::Internal);
                        }
                    },
                    None => {},
                }
                i += 1;
            }
            assert(forall|k: int|
                0 <= k < old(self)@.len() ==> !same_username(account, old(self)@[k]));
        }
        let ghost prior = self@;
        self.accounts.push(account);
        proof {
            assert forall|i: int, j: int|
                0 <= i < j < self@.len() implies !same_username(self@[i], self@[j])
                && self@[i].id != self@[j].id by {
                if j < prior.len() {
                    assert(!same_username(prior[i], prior[j]));
                    assert(prior[i].id != prior[j].id);
                } else {
                    assert(self@[j] == account);
                    assert(!same_username(account, prior[i]));
                    assert(prior[i].id != account.id);
                }
            }
        }
        Ok(())
    }

    /// Looks an account up by username: the row carrying `username` if
    /// there is one, `NotFound` otherwise.
    pub fn get_by_username(&self, username: &str) -> (r: Result<Account, AppError>)
        ensures
            r matches Ok(a) ==> (exists|i: int| 0 <= i < self@.len() && self@[i] == a)
                && username_matches(a, username@),
            r matches Err(e) ==> e is NotFound && !has_username(self@, username@),
    {
        let wanted: String = username.to_owned();
        let n = self.accounts.len();
        let mut i: usize = 0;
        while i < n
            invariant
                n == self.accounts.len(),
                0 <= i <= n,
                wanted@ == username@,
                forall|k: int| 0 <= k < i ==> !username_matches(self.accounts@[k], username@),
            decreases n - i,
        {
            match &self.accounts[i].username {
                Some(u) => {
                    if *u == wanted {
                        let a = self.accounts[i].clone();
                        assert(a == self@[i as int]);
                        assert(username_matches(a, username@));
                        return Ok(a);
                    }
                },
                None => {},
            }
            i += 1;
        }
        Err(AppError::NotFound)
    }
}

} // verus!
