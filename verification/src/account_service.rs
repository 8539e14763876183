//! The authentication service: registration and login.
//!
//! Registration hashes the password and persists a self-authored account;
//! login looks the account up, verifies the password and issues a session
//! token. A failed login never reveals whether the username exists or the
//! password was wrong: every credential failure is the same
//! `PasswordError`.

use crate::account_repository::{
    has_account_id, has_username, same_username, username_matches, AccountRepository,
};
use crate::ambient::{current_timestamp, fresh_uuid};
use crate::error::AppError;
use crate::model::{Account, AccountResponse, LoginRequest, LoginResponse, RegisterRequest};
use crate::password::{digest_matches, hash_password, verify_password};
use crate::token::{decoded_claims, issue_token, token_of, SESSION_TTL_SECS};
use vstd::prelude::*;

verus! {

/// Whether `a`'s stored hash is present and verifies against `password`.
pub open spec fn account_password_ok(a: Account, password: Seq<char>) -> bool {
    match a.password_hash {
        Some(h) => digest_matches(password, h@),
        None => false,
    }
}

/// Whether `rows` holds an account for `username` whose hash verifies
/// against `password` — the condition under which login owes success.
pub open spec fn credentials_good(
    rows: Seq<Account>,
    username: Seq<char>,
    password: Seq<char>,
) -> bool {
    exists|i: int|
        0 <= i < rows.len() && username_matches(rows[i], username) && account_password_ok(
            rows[i],
            password,
        )
}

/// Whether `a` is the row that registering `input` under identifier `id` at
/// time `now` persists: self-authored audit fields, the fixed initial role,
/// and a hash that verifies against the chosen password.
pub open spec fn registered_account(a: Account, input: RegisterRequest, id: u128, now: i64) -> bool {
    &&& a.id == id
    &&& username_matches(a, input.username@)
    &&& a.nickname == input.nickname
    &&& account_password_ok(a, input.password@)
    &&& a.role@ == "parent"@
    &&& a.created_at == now
    &&& a.updated_at == now
    &&& a.created_by == id
    &&& a.updated_by == id
    &&& !a.is_deleted
}

/// The service owns the credential store; the transport layer constructs
/// it once at startup.
pub struct AccountService {
    pub repo: AccountRepository,
}

impl AccountService {
    /// Wraps a credential store.
    pub fn new(repo: AccountRepository) -> (r: Self)
        ensures
            r.repo == repo,
    {
        AccountService { repo }
    }

    /// Fetches the account stored under `name`, or `NotFound`.
    pub fn get(&self, name: String) -> (r: Result<Account, AppError>)
        ensures
            r matches Ok(a) ==> (exists|i: int| 0 <= i < self.repo@.len() && self.repo@[i] == a)
                && username_matches(a, name@),
            r matches Err(e) ==> e is NotFound && !has_username(self.repo@, name@),
    {
        self.repo.get_by_username(name.as_str())
    }

    /// Persists a new account record; a taken username or identifier
    /// surfaces as the generic `Internal` kind.
    pub fn create(&mut self, account: Account) -> (r: Result<(), AppError>)
        requires
            old(self).repo.wf(),
        ensures
            final(self).repo.wf(),
            r matches Ok(()) ==> final(self).repo@ == old(self).repo@.push(account) && (
            forall|i: int|
                0 <= i < old(self).repo@.len() ==> !same_username(account, old(self).repo@[i])
                    && old(self).repo@[i].id != account.id),
            r matches Err(e) ==> e is Internal && final(self).repo@ == old(self).repo@ && (
            exists|i: int|
                0 <= i < old(self).repo@.len() && (same_username(account, old(self).repo@[i])
                    || old(self).repo@[i].id == account.id)),
    {
        self.repo.insert(account)
    }
}

/// Registration with the hash already computed: builds the self-authored
/// record and persists it. Deterministic in its arguments; the only
/// failures are the store's unique constraints on the username and on the
/// identifier.
pub fn register_hashed(
    service: &mut AccountService,
    input: &RegisterRequest,
    digest: String,
    id: u128,
    now: i64,
) -> (r: Result<AccountResponse, AppError>)
    requires
        old(service).repo.wf(),
        input.username@.len() > 0,
        digest_matches(input.password@, digest@),
    ensures
        final(service).repo.wf(),
        r matches Ok(resp) ==> final(service).repo@.len() == old(service).repo@.len() + 1
            && final(service).repo@ == old(service).repo@.push(final(service).repo@.last())
            && registered_account(final(service).repo@.last(), *input, id, now)
            && !has_username(old(service).repo@, input.username@) && resp.id == id
            && resp.username == final(service).repo@.last().username && resp.nickname
            == input.nickname,
        r matches Err(e) ==> e is Internal && final(service).repo@ == old(service).repo@
            && (has_username(old(service).repo@, input.username@) || has_account_id(
            old(service).repo@,
            id,
        )),
{
    let account = Account {
        id,
        username: Some(input.username.clone()),
        nickname: input.nickname.clone(),
        password_hash: Some(digest),
        role: "parent".to_owned(),
        created_at: now,
        updated_at: now,
        created_by: id,
        updated_by: id,
        is_deleted: false,
    };
    let ghost acct = account;
    let ghost prior = service.repo@;
    let resp = AccountResponse {
        id,
        username: account.username.clone(),
        nickname: account.nickname.clone(),
    };
    match service.create(account) {
        Ok(()) => {
            proof {
                assert(service.repo@.last() == acct);
                assert(registered_account(acct, *input, id, now));
                assert forall|i: int| 0 <= i < prior.len() implies !username_matches(
                    prior[i],
                    input.username@,
                ) by {
                    assert(!same_username(acct, prior[i]));
                }
            }
            Ok(resp)
        },
        Err(e) => {
            proof {
                let i = choose|i: int|
                    0 <= i < prior.len() && (same_username(acct, prior[i]) || prior[i].id
                        == acct.id);
                if same_username(acct, prior[i]) {
                    assert(username_matches(prior[i], input.username@));
                } else {
                    assert(has_account_id(prior, id));
                }
            }
            Err(e)
        },
    }
}

/// Registration with an explicit identifier and time: hashes the password
/// (the one step that draws randomness) and persists through
/// `register_hashed`. A hashing failure and a taken username both surface
/// as the generic `Internal` kind, with the store untouched.
pub fn register_with(
    service: &mut AccountService,
    input: &RegisterRequest,
    id: u128,
    now: i64,
) -> (r: Result<AccountResponse, AppError>)
    requires
        old(service).repo.wf(),
        input.username@.len() > 0,
        input.password@.len() > 0,
    ensures
        final(service).repo.wf(),
        r matches Ok(resp) ==> final(service).repo@.len() == old(service).repo@.len() + 1
            && final(service).repo@ == old(service).repo@.push(final(service).repo@.last())
            && registered_account(final(service).repo@.last(), *input, id, now)
            && !has_username(old(service).repo@, input.username@) && resp.id == id
            && resp.username == final(service).repo@.last().username && resp.nickname
            == input.nickname,
        r matches Err(e) ==> e is Internal && final(service).repo@ == old(service).repo@,
        has_username(old(service).repo@, input.username@) ==> r is Err,
        !has_username(old(service).repo@, input.username@) && !has_account_id(
            old(service).repo@,
            id,
        ) && input.password@.len() < 0x40000000 ==> r is Ok,
{
    let digest = match hash_password(input.password.as_str()) {
        Some(d) => d,
        None => {
            return Err(AppError::Internal);
        },
    };
    register_hashed(service, input, digest, id, now)
}

/// Registration as the transport calls it: a fresh identifier and the
/// current time are drawn here; the record persisted and the response are
/// as `register_with` states for those values.
pub fn register(service: &mut AccountService, input: &RegisterRequest) -> (r: Result<
    AccountResponse,
    AppError,
>)
    requires
        old(service).repo.wf(),
        input.username@.len() > 0,
        input.password@.len() > 0,
    ensures
        final(service).repo.wf(),
        r matches Ok(resp) ==> final(service).repo@.len() == old(service).repo@.len() + 1
            && final(service).repo@ == old(service).repo@.push(final(service).repo@.last())
            && registered_account(
            final(service).repo@.last(),
            *input,
            resp.id,
            final(service).repo@.last().created_at,
        ) && !has_username(old(service).repo@, input.username@)
            && resp.username == final(service).repo@.last().username
            && resp.nickname == input.nickname,
        r matches Err(e) ==> e is Internal && final(service).repo@ == old(service).repo@,
        has_username(old(service).repo@, input.username@) ==> r is Err,
        r is Err && input.password@.len() < 0x40000000 ==> has_username(
            old(service).repo@,
            input.username@,
        ) || old(service).repo@.len() > 0,
{
    let id = fresh_uuid();
    let now = current_timestamp();
    let r = register_with(service, input, id, now);
    proof {
        if r is Err && input.password@.len() < 0x40000000 && !has_username(
            old(service).repo@,
            input.username@,
        ) {
            assert(has_account_id(old(service).repo@, id));
            let i = choose|i: int|
                0 <= i < old(service).repo@.len() && old(service).repo@[i].id == id;
        }
    }
    r
}

/// Login at an explicit time: looks the account up by username, verifies
/// the password against the stored hash, and issues a session token.
/// Succeeds exactly when the store holds an account for the username whose
/// hash verifies against the password; every credential failure — unknown
/// username, absent hash, wrong password — is the same `PasswordError`.
pub fn login_at(
    service: &AccountService,
    input: &LoginRequest,
    jwt_secret: &[u8],
    now: i64,
) -> (r: Result<LoginResponse, AppError>)
    requires
        service.repo.wf(),
        0 <= now + SESSION_TTL_SECS,
        now + SESSION_TTL_SECS <= i64::MAX,
    ensures
        r matches Ok(resp) ==> exists|i: int|
            0 <= i < service.repo@.len() && username_matches(service.repo@[i], input.username@)
                && account_password_ok(service.repo@[i], input.password@) && resp.account.id
                == service.repo@[i].id && resp.account.username == service.repo@[i].username
                && resp.account.nickname == service.repo@[i].nickname && resp.access_token@
                == token_of(service.repo@[i].id, (now + SESSION_TTL_SECS) as i64, jwt_secret@)
                && decoded_claims(resp.access_token@, jwt_secret@) == Some(
                (service.repo@[i].id, (now + SESSION_TTL_SECS) as i64),
            ),
        r is Ok == credentials_good(service.repo@, input.username@, input.password@),
        r matches Err(e) ==> e is PasswordError,
{
    let account = match service.get(input.username.clone()) {
        Ok(a) => a,
        Err(_) => {
            proof {
                if credentials_good(service.repo@, input.username@, input.password@) {
                    let i = choose|i: int|
                        0 <= i < service.repo@.len() && username_matches(
                            service.repo@[i],
                            input.username@,
                        ) && account_password_ok(service.repo@[i], input.password@);
                    assert(has_username(service.repo@, input.username@));
                }
            }
            return Err(AppError::PasswordError);
        },
    };
    let ghost acc = account;
    let ghost row = choose|i: int|
        0 <= i < service.repo@.len() && service.repo@[i] == acc;
    proof {
        assert(username_matches(service.repo@[row], input.username@));
    }
    let hashed = match &account.password_hash {
        Some(h) => h,
        None => {
            proof {
                lemma_sole_credential_row(service.repo@, input.username@, input.password@, row);
            }
            return Err(AppError::PasswordError);
        },
    };
    if verify_password(input.password.as_str(), hashed.as_str()) {
        match issue_token(account.id, now, jwt_secret) {
            Ok(token) => {
                proof {
                    assert(account_password_ok(service.repo@[row], input.password@));
                }
                Ok(
                    LoginResponse {
                        access_token: token,
                        account: AccountResponse {
                            id: account.id,
                            username: account.username,
                            nickname: account.nickname,
                        },
                    },
                )
            },
            Err(e) => Err(e),
        }
    } else {
        proof {
            assert(!account_password_ok(acc, input.password@));
            lemma_sole_credential_row(service.repo@, input.username@, input.password@, row);
        }
        Err(AppError::PasswordError)
    }
}

/// Enumeration resistance, wrong-password half: under the uniqueness
/// invariant, if the one row carrying the username does not pass the
/// password check, no row satisfies the login condition — so login answers
/// with the same `PasswordError` an unknown username earns.
pub proof fn lemma_sole_credential_row(rows: Seq<Account>, username: Seq<char>, password: Seq<char>, i: int)
    requires
        crate::account_repository::usernames_unique(rows),
        0 <= i < rows.len(),
        username_matches(rows[i], username),
        !account_password_ok(rows[i], password),
    ensures
        !credentials_good(rows, username, password),
{
    if credentials_good(rows, username, password) {
        let j = choose|j: int|
            0 <= j < rows.len() && username_matches(rows[j], username) && account_password_ok(
                rows[j],
                password,
            );
        crate::account_repository::lemma_username_unique(rows, username, i, j);
    }
}

/// Login as the transport calls it: the current time is drawn here. When
/// the clock reads before the Unix epoch or its value would overflow the
/// session expiry, the operation fails closed with the generic `Internal`
/// kind instead of issuing a token.
pub fn login(service: &AccountService, input: &LoginRequest, jwt_secret: &[u8]) -> (r: Result<
    LoginResponse,
    AppError,
>)
    requires
        service.repo.wf(),
    ensures
        r matches Ok(resp) ==> exists|i: int|
            0 <= i < service.repo@.len() && username_matches(service.repo@[i], input.username@)
                && account_password_ok(service.repo@[i], input.password@) && resp.account.id
                == service.repo@[i].id && resp.account.username == service.repo@[i].username
                && resp.account.nickname == service.repo@[i].nickname && (match decoded_claims(
                resp.access_token@,
                jwt_secret@,
            ) {
                Some(p) => p.0 == service.repo@[i].id,
                None => false,
            }),
        !credentials_good(service.repo@, input.username@, input.password@) ==> r is Err,
        r matches Err(e) && e is PasswordError ==> !credentials_good(
            service.repo@,
            input.username@,
            input.password@,
        ),
        credentials_good(service.repo@, input.username@, input.password@) && r is Err
            ==> r matches Err(AppError::Internal),
        r matches Err(e) ==> e is PasswordError || e is Internal,
{
    let now = current_timestamp();
    if 0 <= now && now <= i64::MAX - SESSION_TTL_SECS {
        login_at(service, input, jwt_secret, now)
    } else {
        Err(AppError::Internal)
    }
}

} // verus!
