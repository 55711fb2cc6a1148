//! Looking an account up by its email, and logging in.

use vstd::prelude::*;
use vstd::string::StringExecFns;
use crate::auth::claims::{current_time, expiry_of, issue_token_at};
use crate::auth::token::signed_token;
use crate::error::CustomError;
use crate::response::{Reply, STATUS_INTERNAL_SERVER_ERROR, STATUS_UNAUTHORIZED};
use crate::user::users::{
    password_verdict,
    verify_password,
    Account,
    Staff,
    SubAdmin,
    SuperAdmin,
    Technician,
    UserRole,
};

verus! {

/// What a client sends to log in.
#[derive(Clone, Debug, PartialEq, Eq)]
pub struct LoginRequest {
    pub email: String,
    pub password: String,
}

/// What a client gets back when it has logged in.
#[derive(Clone, Debug, PartialEq, Eq)]
pub struct LoginResponse {
    pub token: String,
}

/// An account of one of the four kinds.
#[derive(Clone, Debug, PartialEq, Eq)]
pub enum User {
    SuperAdmin(SuperAdmin),
    SubAdmin(SubAdmin),
    Staff(Staff),
    Technician(Technician),
}

/// The four tables of accounts, each in the order of its rows.
#[derive(Clone, Debug, PartialEq, Eq)]
pub struct Directory {
    pub super_admins: Vec<SuperAdmin>,
    pub sub_admins: Vec<SubAdmin>,
    pub staff: Vec<Staff>,
    pub technicians: Vec<Technician>,
}

/// The place of the first row of a table with the given email.
pub open spec fn first_with_email<A: Account>(rows: Seq<A>, email: Seq<char>) -> Option<int>
    decreases rows.len(),
{
    if rows.len() == 0 {
        None
    } else {
        match first_with_email(rows.drop_last(), email) {
            Some(index) => Some(index),
            None => if rows.last().email_text() == email {
                Some(rows.len() - 1)
            } else {
                None
            },
        }
    }
}

/// The account that an email resolves to: the first hit in the first table
/// that has one, the tables taken in the order super admin, sub-admin,
/// staff, technician. Hits in later tables are never looked at.
pub open spec fn resolved(directory: Directory, email: Seq<char>) -> Option<User> {
    match first_with_email(directory.super_admins@, email) {
        Some(index) => Some(User::SuperAdmin(directory.super_admins@[index])),
        None => match first_with_email(directory.sub_admins@, email) {
            Some(index) => Some(User::SubAdmin(directory.sub_admins@[index])),
            None => match first_with_email(directory.staff@, email) {
                Some(index) => Some(User::Staff(directory.staff@[index])),
                None => match first_with_email(directory.technicians@, email) {
                    Some(index) => Some(User::Technician(directory.technicians@[index])),
                    None => None,
                },
            },
        },
    }
}

/// Whether the table of `role` holds a row with the given email.
pub open spec fn table_holds(directory: Directory, role: UserRole, email: Seq<char>) -> bool {
    match role {
        UserRole::SuperAdmin => first_with_email(directory.super_admins@, email) is Some,
        UserRole::SubAdmin => first_with_email(directory.sub_admins@, email) is Some,
        UserRole::Staff => first_with_email(directory.staff@, email) is Some,
        UserRole::Technician => first_with_email(directory.technicians@, email) is Some,
    }
}

/// The place of a role in the order of the lookup.
pub open spec fn precedence(role: UserRole) -> int {
    match role {
        UserRole::SuperAdmin => 0,
        UserRole::SubAdmin => 1,
        UserRole::Staff => 2,
        UserRole::Technician => 3,
    }
}

/// The table to probe next, given the table probed last and whether it
/// held the email: the first table at the start, the next in the order of
/// the lookup after a miss, and none after a hit or after the last table.
pub open spec fn probe_after(last: Option<UserRole>, hit: bool) -> Option<UserRole> {
    match last {
        None => Some(UserRole::SuperAdmin),
        Some(role) => if hit {
            None
        } else {
            match role {
                UserRole::SuperAdmin => Some(UserRole::SubAdmin),
                UserRole::SubAdmin => Some(UserRole::Staff),
                UserRole::Staff => Some(UserRole::Technician),
                UserRole::Technician => None,
            }
        },
    }
}

/// The body of the answer to a login for an email that resolves to nothing.
pub open spec fn unknown_account_text() -> Seq<char> {
    "Invalid request: OtherError(\"Not Found\")"@
}

impl User {
    /// The kind of the account.
    pub open spec fn spec_role(&self) -> UserRole {
        match self {
            User::SuperAdmin(_) => UserRole::SuperAdmin,
            User::SubAdmin(_) => UserRole::SubAdmin,
            User::Staff(_) => UserRole::Staff,
            User::Technician(_) => UserRole::Technician,
        }
    }

    /// The stored password hash of the account.
    pub open spec fn password_text(&self) -> Seq<char> {
        match self {
            User::SuperAdmin(account) => account.password@,
            User::SubAdmin(account) => account.password@,
            User::Staff(account) => account.password@,
            User::Technician(account) => account.password@,
        }
    }

    /// The kind of the account.
    pub fn role(&self) -> (role: UserRole)
        ensures
            role == self.spec_role(),
    {
        match self {
            User::SuperAdmin(_) => UserRole::SuperAdmin,
            User::SubAdmin(_) => UserRole::SubAdmin,
            User::Staff(_) => UserRole::Staff,
            User::Technician(_) => UserRole::Technician,
        }
    }

    /// The stored password hash of the account.
    pub fn password(&self) -> (hash: &String)
        ensures
            hash@ == self.password_text(),
    {
        match self {
            User::SuperAdmin(account) => &account.password,
            User::SubAdmin(account) => &account.password,
            User::Staff(account) => &account.password,
            User::Technician(account) => &account.password,
        }
    }
}

/// An email resolves to an account of the first kind, in the order of the
/// lookup, whose table holds it, whatever later tables hold; it resolves to
/// nothing exactly when no table holds it.
pub proof fn law_resolution_follows_precedence(directory: Directory, email: Seq<char>)
    ensures
        match resolved(directory, email) {
            Some(user) => {
                &&& table_holds(directory, user.spec_role(), email)
                &&& forall|earlier: UserRole|
                    precedence(earlier) < precedence(user.spec_role()) ==> !#[trigger] table_holds(
                        directory,
                        earlier,
                        email,
                    )
            },
            None => forall|role: UserRole| !#[trigger] table_holds(directory, role, email),
        },
{
}

/// Tells which table to probe next for an email, so that the tables are
/// taken in the order of the lookup and none is probed after a hit. `last`
/// is the table probed last, `None` at the start; `hit` tells whether it
/// held the email.
pub fn next_probe(last: Option<UserRole>, hit: bool) -> (next: Option<UserRole>)
    ensures
        next == probe_after(last, hit),
        next matches Some(role) ==> precedence(role) == match last {
            Some(probed) => precedence(probed) + 1,
            None => 0,
        },
{
    match last {
        None => Some(UserRole::SuperAdmin),
        Some(role) => if hit {
            None
        } else {
            match role {
                UserRole::SuperAdmin => Some(UserRole::SubAdmin),
                UserRole::SubAdmin => Some(UserRole::Staff),
                UserRole::Staff => Some(UserRole::Technician),
                UserRole::Technician => None,
            }
        },
    }
}

/// What a lookup in the first `n` rows finds it finds in all of them.
pub proof fn lemma_first_with_email_of_prefix<A: Account>(rows: Seq<A>, email: Seq<char>, n: int)
    requires
        0 <= n <= rows.len(),
    ensures
        first_with_email(rows.take(n), email) matches Some(index) ==> first_with_email(rows, email)
            == Some(index),
    decreases rows.len() - n,
{
    if n < rows.len() {
        assert(rows.take(n + 1).drop_last() == rows.take(n));
        lemma_first_with_email_of_prefix(rows, email, n + 1);
    } else {
        assert(rows.take(n) == rows);
    }
}

/// Finds the first row of a table with the given email.
pub fn find_in_table<A: Account>(rows: &Vec<A>, email: &String) -> (found: Option<usize>)
    ensures
        match found {
            Some(index) => first_with_email(rows@, email@) == Some(index as int) && index
                < rows@.len(),
            None => first_with_email(rows@, email@).is_none(),
        },
{
    let mut index: usize = 0;
    while index < rows.len()
        invariant
            index <= rows.len(),
            first_with_email(rows@.take(index as int), email@) is None,
        decreases rows.len() - index,
    {
        proof {
            let prefix = rows@.take(index + 1);
            assert(prefix.drop_last() == rows@.take(index as int));
            assert(prefix.last() == rows@[index as int]);
            lemma_first_with_email_of_prefix(rows@, email@, index + 1);
        }
        if rows[index].email_of().eq(email) {
            return Some(index);
        }
        index = index + 1;
    }
    proof {
        assert(rows@.take(index as int) == rows@);
    }
    None
}

impl Directory {
    /// A directory without accounts.
    pub fn new() -> (directory: Directory)
        ensures
            directory.super_admins@.len() == 0,
            directory.sub_admins@.len() == 0,
            directory.staff@.len() == 0,
            directory.technicians@.len() == 0,
    {
        Directory {
            super_admins: Vec::new(),
            sub_admins: Vec::new(),
            staff: Vec::new(),
            technicians: Vec::new(),
        }
    }

    /// Resolves an email to one account: the tables are taken in the order
    /// super admin, sub-admin, staff, technician, and the first hit wins.
    /// An email that no table holds is an error.
    pub fn find_user_by_email(&self, email: &str) -> (found: Result<User, CustomError>)
        ensures
            match found {
                Ok(user) => resolved(*self, email@) == Some(user),
                Err(error) => {
                    &&& resolved(*self, email@).is_none()
                    &&& error matches CustomError::OtherError(message)
                    &&& message@ == "Not Found"@
                },
            },
    {
        let wanted = String::from_str(email);
        if let Some(index) = find_in_table(&self.super_admins, &wanted) {
            return Ok(User::SuperAdmin(self.super_admins[index].duplicate()));
        }
        if let Some(index) = find_in_table(&self.sub_admins, &wanted) {
            return Ok(User::SubAdmin(self.sub_admins[index].duplicate()));
        }
        if let Some(index) = find_in_table(&self.staff, &wanted) {
            return Ok(User::Staff(self.staff[index].duplicate()));
        }
        if let Some(index) = find_in_table(&self.technicians, &wanted) {
            return Ok(User::Technician(self.technicians[index].duplicate()));
        }
        Err(CustomError::OtherError(String::from_str("Not Found")))
    }
}

/// What `verify_user_at` answers.
pub open spec fn verified_user(
    stored_password: Seq<char>,
    input_password: Seq<char>,
    email: Seq<char>,
    secret: Seq<u8>,
    now: u64,
    answer: Result<LoginResponse, Reply>,
) -> bool {
    match password_verdict(stored_password, input_password) {
        Some(true) => {
            &&& answer matches Ok(response)
            &&& signed_token(email, expiry_of(now), secret) == Some(response.token@)
            &&& response.token@.len() > 0
        },
        Some(false) => {
            &&& answer matches Err(reply)
            &&& reply.status == STATUS_UNAUTHORIZED
            &&& reply.body@ == "Invalid credentials"@
        },
        None => {
            &&& answer matches Err(reply)
            &&& reply.status == STATUS_INTERNAL_SERVER_ERROR
            &&& reply.body@ == "Failed to verify password"@
        },
    }
}

/// What `login_at` answers.
pub open spec fn logged_in(
    directory: Directory,
    request: LoginRequest,
    secret: Seq<u8>,
    now: u64,
    answer: Result<LoginResponse, Reply>,
) -> bool {
    match resolved(directory, request.email@) {
        Some(user) => verified_user(
            user.password_text(),
            request.password@,
            request.email@,
            secret,
            now,
            answer,
        ),
        None => answer matches Err(reply) && reply.status == STATUS_UNAUTHORIZED && reply.body@
            == unknown_account_text(),
    }
}

/// Checks a password against a stored hash and, where it matches, issues a
/// token to `email` as of `now`. A password that does not match is answered
/// with 401; a stored hash that does not parse, or cannot be recomputed, is
/// a fault of the service and answered with 500.
pub fn verify_user_at(
    stored_password: &str,
    input_password: &str,
    email: &str,
    secret: &[u8],
    now: u64,
) -> (answer: Result<LoginResponse, Reply>)
    ensures
        verified_user(stored_password@, input_password@, email@, secret@, now, answer),
{
    match verify_password(stored_password, input_password) {
        Ok(true) => match issue_token_at(email, now, secret) {
            Some(token) => Ok(LoginResponse { token }),
            None => Err(Reply::new(STATUS_INTERNAL_SERVER_ERROR, "Failed to issue token")),
        },
        Ok(false) => Err(Reply::new(STATUS_UNAUTHORIZED, "Invalid credentials")),
        Err(_) => Err(Reply::new(STATUS_INTERNAL_SERVER_ERROR, "Failed to verify password")),
    }
}

/// As `verify_user_at`, with the token issued as of this moment.
pub fn verify_user(stored_password: &str, input_password: &str, email: &str, secret: &[u8]) -> (answer:
    Result<LoginResponse, Reply>)
    ensures
        exists|now: u64|
            verified_user(stored_password@, input_password@, email@, secret@, now, answer),
{
    verify_user_at(stored_password, input_password, email, secret, current_time())
}

/// Logs a client in as of `now`: resolves the email, checks the password
/// against the account's hash, and issues a token. The answer is a token
/// that is not empty exactly where the email resolves to an account whose
/// hash matches the password. An email that resolves to nothing and a
/// password that does not match are both answered with 401.
pub fn login_at(directory: &Directory, request: &LoginRequest, secret: &[u8], now: u64) -> (answer:
    Result<LoginResponse, Reply>)
    ensures
        logged_in(*directory, *request, secret@, now, answer),
{
    match directory.find_user_by_email(request.email.as_str()) {
        Ok(user) => verify_user_at(
            user.password().as_str(),
            request.password.as_str(),
            request.email.as_str(),
            secret,
            now,
        ),
        Err(_) => Err(
            Reply::new(STATUS_UNAUTHORIZED, "Invalid request: OtherError(\"Not Found\")"),
        ),
    }
}

/// Logs a client in as of this moment.
pub fn login(directory: &Directory, request: &LoginRequest, secret: &[u8]) -> (answer: Result<
    LoginResponse,
    Reply,
>)
    ensures
        exists|now: u64| logged_in(*directory, *request, secret@, now, answer),
{
    login_at(directory, request, secret, current_time())
}

} // verus!
