//! The four kinds of account and how one is provisioned.

use vstd::prelude::*;
use crate::clock::unix_micros;
use crate::crypto::{
    argon2_hash,
    argon2_phc,
    argon2_verify,
    fresh_salt,
    parse_phc,
    phc_parses,
    phc_salt,
    phc_verdict,
    sha512,
    sha512_digest,
};
use crate::error::CustomError;
use crate::random::random_in;
use crate::response::{Reply, STATUS_BAD_REQUEST, STATUS_INTERNAL_SERVER_ERROR};

verus! {

/// The four kinds of operator account, in the order in which an email is
/// looked up.
#[derive(Clone, Copy, Debug, PartialEq, Eq, Structural)]
pub enum UserRole {
    SuperAdmin,
    SubAdmin,
    Staff,
    Technician,
}

/// An account with full rights. Times are microseconds since the Unix epoch.
#[derive(Clone, Debug, PartialEq, Eq)]
pub struct SuperAdmin {
    pub id: Option<i32>,
    pub name: String,
    pub email: String,
    pub password: String,
    pub created_at: Option<i64>,
    pub updated_at: Option<i64>,
}

/// A member of a company's staff; `metrics_id` owns the telemetry of the
/// member's host. Times are microseconds since the Unix epoch.
#[derive(Clone, Debug, PartialEq, Eq)]
pub struct Staff {
    pub id: Option<i32>,
    pub metrics_id: Option<i32>,
    pub name: String,
    pub email: String,
    pub password: String,
    pub created_at: Option<i64>,
    pub updated_at: Option<i64>,
    pub company_affiliated_to: Option<String>,
}

/// A technician. Times are microseconds since the Unix epoch.
#[derive(Clone, Debug, PartialEq, Eq)]
pub struct Technician {
    pub id: Option<i32>,
    pub name: String,
    pub email: String,
    pub password: String,
    pub created_at: Option<i64>,
    pub updated_at: Option<i64>,
}

/// A company's administrator; `metrics_id` owns the telemetry of the
/// administrator's host. Times are microseconds since the Unix epoch.
#[derive(Clone, Debug, PartialEq, Eq)]
pub struct SubAdmin {
    pub id: Option<i32>,
    pub metrics_id: Option<i32>,
    pub company_name: Option<String>,
    pub email: String,
    pub phone: String,
    pub password: String,
    pub created_at: Option<i64>,
    pub updated_at: Option<i64>,
}

/// The digest that stands for `password` in the credential chain: SHA-512
/// of its UTF-8 bytes.
pub open spec fn password_digest(password: Seq<char>) -> Seq<u8> {
    sha512_digest(vstd::utf8::encode_utf8(password))
}

/// What checking `password` against the stored hash `hash` gives. A hash
/// that does not parse gives no verdict. One that parses gives the verdict of
/// the memory-hard function, run on the digest of `password` with the salt
/// and parameters that `hash` records: whether it gives the output that
/// `hash` holds, or no verdict where it cannot be run.
pub open spec fn password_verdict(hash: Seq<char>, password: Seq<char>) -> Option<bool> {
    if phc_parses(hash) {
        phc_verdict(hash, password_digest(password))
    } else {
        None
    }
}

/// Whether the stored hash `hash` was made of `password`: it parses, and
/// the verdict on `password` is that it matches.
pub open spec fn password_matches(hash: Seq<char>, password: Seq<char>) -> bool {
    password_verdict(hash, password) == Some(true)
}

/// Whether `hash` is what hashing `password` under `salt` gives: the hash
/// of the chain under that salt, which records the salt and matches the
/// password.
pub open spec fn hashed_under(hash: Seq<char>, password: Seq<char>, salt: Seq<char>) -> bool {
    &&& salted_hash(password, salt) == Some(hash)
    &&& phc_salt(hash) == Some(salt)
    &&& password_matches(hash, password)
}

/// The hash of `password` under `salt`, or `None` where the memory-hard
/// function refuses the salt.
pub open spec fn salted_hash(password: Seq<char>, salt: Seq<char>) -> Option<Seq<char>> {
    argon2_phc(password_digest(password), salt)
}

/// The answer to a request whose email holds no `@`.
pub open spec fn invalid_email_reply(reply: Reply) -> bool {
    reply.status == STATUS_BAD_REQUEST && reply.body@ == "Invalid email format"@
}

/// An email is taken when it holds an `@`: the only rule.
pub fn is_email_valid(email: &str) -> (valid: bool)
    ensures
        valid == email@.contains('@'),
{
    broadcast use vstd::string::axiom_spec_iter;

    let mut found = false;
    for c in it: email.chars()
        invariant
            it.seq() == email@,
            found == email@.take(it.index()).contains('@'),
    {
        proof {
            let seen = email@.take(it.index());
            let next = email@.take(it.index() + 1);
            assert(next == seen.push(c));
            if seen.contains('@') {
                let i = choose|i: int| 0 <= i < seen.len() && seen[i] == '@';
                assert(next[i] == '@');
            }
            if c == '@' {
                assert(next[it.index()] == '@');
            }
        }
        found = found || c == '@';
    }
    proof {
        assert(email@.take(email@.len() as int) == email@);
    }
    found
}

/// A random identifier: positive and within 31 bits. Collisions are not
/// looked for.
pub fn generate_id() -> (id: i32)
    ensures
        1 <= id <= i32::MAX,
{
    random_in(1, i32::MAX)
}

/// Hashes `password` under the given salt: SHA-512 first, then the
/// memory-hard function on the digest. The hash records the salt, so that
/// two salts give two hashes. It fails exactly where the memory-hard
/// function refuses the salt.
pub fn hash_with_salt(password: &str, salt: &str) -> (hash: Result<String, CustomError>)
    ensures
        match hash {
            Ok(phc) => hashed_under(phc@, password@, salt@),
            Err(error) => salted_hash(password@, salt@).is_none() && error is Argon2Error,
        },
        password_digest(password@).len() == 64,
{
    let digest = sha512(password.as_bytes());
    match argon2_hash(digest.as_slice(), salt) {
        Ok(phc) => Ok(phc),
        Err(error) => Err(CustomError::from(error)),
    }
}

/// Hashes `password` under a freshly drawn salt. No password is refused,
/// whatever it holds and however long it is: the memory-hard function only
/// ever sees its digest, and takes every drawn salt. The hash that comes
/// back records its salt and verifies against `password`.
pub fn multi_scheme_hash(password: &str) -> (hash: Result<String, CustomError>)
    ensures
        hash matches Ok(phc) && exists|salt: Seq<char>| #[trigger]
            hashed_under(phc@, password@, salt),
{
    let salt = fresh_salt();
    let hash = hash_with_salt(password, salt.as_str());
    proof {
        assert(argon2_phc(password_digest(password@), salt@) is Some);
        assert(hashed_under(hash->Ok_0@, password@, salt@));
    }
    hash
}

/// Checks `password` against the stored `hash`: `Ok(true)` where it
/// matches, `Ok(false)` where it does not. A stored hash that does not
/// parse is never accepted and is no mismatch either: it is an error, as is
/// one that parses and cannot be recomputed.
pub fn verify_password(hash: &str, password: &str) -> (verdict: Result<bool, CustomError>)
    ensures
        match verdict {
            Ok(accepted) => password_verdict(hash@, password@) == Some(accepted),
            Err(error) => password_verdict(hash@, password@).is_none() && error is Argon2Error,
        },
        !phc_parses(hash@) ==> verdict is Err,
{
    if let Err(error) = parse_phc(hash) {
        return Err(CustomError::from(error));
    }
    let digest = sha512(password.as_bytes());
    match argon2_verify(digest.as_slice(), hash) {
        Ok(accepted) => Ok(accepted),
        Err(error) => Err(CustomError::from(error)),
    }
}

/// The salt that a stored hash records. A hash that does not parse is an
/// error; one that parses may have no salt.
pub fn embedded_salt(hash: &str) -> (salt: Result<Option<String>, CustomError>)
    ensures
        match salt {
            Ok(Some(text)) => phc_parses(hash@) && phc_salt(hash@) == Some(text@),
            Ok(None) => phc_parses(hash@) && phc_salt(hash@).is_none(),
            Err(error) => !phc_parses(hash@) && error is Argon2Error,
        },
{
    match parse_phc(hash) {
        Ok(salt) => Ok(salt),
        Err(error) => Err(CustomError::from(error)),
    }
}

/// The identifier of a new account: the one that was asked for, or a random
/// one where none was.
pub fn assign_id(requested: Option<i32>) -> (id: i32)
    ensures
        requested matches Some(wanted) ==> id == wanted,
        requested is None ==> 1 <= id,
{
    match requested {
        Some(wanted) => wanted,
        None => generate_id(),
    }
}

impl SuperAdmin {
    /// The account that is stored for `request`: as it was asked for, with
    /// the hash in place of the password and the creation time stamped.
    pub fn enrolled(request: SuperAdmin, password_hash: String, now: i64) -> (account: SuperAdmin)
        ensures
            account == (SuperAdmin {
                password: password_hash,
                created_at: Some(now),
                updated_at: None,
                ..request
            }),
    {
        SuperAdmin {
            id: request.id,
            name: request.name,
            email: request.email,
            password: password_hash,
            created_at: Some(now),
            updated_at: None,
        }
    }

    /// Whether `account` is what provisioning makes of `request`.
    pub open spec fn provisioned_from(account: SuperAdmin, request: SuperAdmin) -> bool {
        &&& account.id == request.id
        &&& account.name == request.name
        &&& account.email == request.email
        &&& password_matches(account.password@, request.password@)
        &&& account.created_at is Some
        &&& account.updated_at is None
    }
}

impl Technician {
    /// The account that is stored for `request`: as it was asked for, with
    /// the hash in place of the password and the creation time stamped.
    pub fn enrolled(request: Technician, password_hash: String, now: i64) -> (account: Technician)
        ensures
            account == (Technician {
                password: password_hash,
                created_at: Some(now),
                updated_at: None,
                ..request
            }),
    {
        Technician {
            id: request.id,
            name: request.name,
            email: request.email,
            password: password_hash,
            created_at: Some(now),
            updated_at: None,
        }
    }

    /// Whether `account` is what provisioning makes of `request`.
    pub open spec fn provisioned_from(account: Technician, request: Technician) -> bool {
        &&& account.id == request.id
        &&& account.name == request.name
        &&& account.email == request.email
        &&& password_matches(account.password@, request.password@)
        &&& account.created_at is Some
        &&& account.updated_at is None
    }
}

impl SubAdmin {
    /// The account that is stored for `request`, with the given identifiers,
    /// the hash in place of the password and the creation time stamped.
    pub fn enrolled(
        request: SubAdmin,
        password_hash: String,
        id: i32,
        metrics_id: i32,
        now: i64,
    ) -> (account: SubAdmin)
        ensures
            account == (SubAdmin {
                id: Some(id),
                metrics_id: Some(metrics_id),
                password: password_hash,
                created_at: Some(now),
                updated_at: None,
                ..request
            }),
    {
        SubAdmin {
            id: Some(id),
            metrics_id: Some(metrics_id),
            company_name: request.company_name,
            email: request.email,
            phone: request.phone,
            password: password_hash,
            created_at: Some(now),
            updated_at: None,
        }
    }

    /// Whether `account` is what provisioning makes of `request`.
    pub open spec fn provisioned_from(account: SubAdmin, request: SubAdmin) -> bool {
        &&& identifier_assigned(account.id, request.id)
        &&& identifier_assigned(account.metrics_id, request.metrics_id)
        &&& account.company_name == request.company_name
        &&& account.email == request.email
        &&& account.phone == request.phone
        &&& password_matches(account.password@, request.password@)
        &&& account.created_at is Some
        &&& account.updated_at is None
    }
}

impl Staff {
    /// The account that is stored for `request`, with the given identifiers,
    /// the hash in place of the password and the creation time stamped.
    pub fn enrolled(
        request: Staff,
        password_hash: String,
        id: i32,
        metrics_id: i32,
        now: i64,
    ) -> (account: Staff)
        ensures
            account == (Staff {
                id: Some(id),
                metrics_id: Some(metrics_id),
                password: password_hash,
                created_at: Some(now),
                updated_at: None,
                ..request
            }),
    {
        Staff {
            id: Some(id),
            metrics_id: Some(metrics_id),
            name: request.name,
            email: request.email,
            password: password_hash,
            created_at: Some(now),
            updated_at: None,
            company_affiliated_to: request.company_affiliated_to,
        }
    }

    /// Whether `account` is what provisioning makes of `request`.
    pub open spec fn provisioned_from(account: Staff, request: Staff) -> bool {
        &&& identifier_assigned(account.id, request.id)
        &&& identifier_assigned(account.metrics_id, request.metrics_id)
        &&& account.name == request.name
        &&& account.email == request.email
        &&& account.company_affiliated_to == request.company_affiliated_to
        &&& password_matches(account.password@, request.password@)
        &&& account.created_at is Some
        &&& account.updated_at is None
    }
}

/// An identifier as provisioning leaves it: the requested one where one was
/// requested, else some positive one.
pub open spec fn identifier_assigned(assigned: Option<i32>, requested: Option<i32>) -> bool {
    match requested {
        Some(wanted) => assigned == Some(wanted),
        None => assigned matches Some(id) && 1 <= id,
    }
}

/// Prepares a super admin for storage. An email without `@` is refused
/// before anything else is done; every other request is prepared, since no
/// password fails to hash.
pub fn createsuper(new_user: SuperAdmin) -> (prepared: Result<SuperAdmin, Reply>)
    ensures
        !new_user.email@.contains('@') ==> (prepared matches Err(reply) && invalid_email_reply(
            reply,
        )),
        new_user.email@.contains('@') ==> (prepared matches Ok(account)
            && SuperAdmin::provisioned_from(account, new_user)),
{
    if !is_email_valid(new_user.email.as_str()) {
        return Err(Reply::new(STATUS_BAD_REQUEST, "Invalid email format"));
    }
    let hashed_password = match multi_scheme_hash(new_user.password.as_str()) {
        Ok(hash) => hash,
        Err(_) => {
            return Err(Reply::new(STATUS_INTERNAL_SERVER_ERROR, "Failed to hash password"));
        },
    };
    Ok(SuperAdmin::enrolled(new_user, hashed_password, unix_micros()))
}

/// Prepares a sub-admin for storage, with identifiers drawn where none were
/// asked for. An email without `@` is refused before anything else is done;
/// every other request is prepared, since no password fails to hash.
pub fn createsub(new_user: SubAdmin) -> (prepared: Result<SubAdmin, Reply>)
    ensures
        !new_user.email@.contains('@') ==> (prepared matches Err(reply) && invalid_email_reply(
            reply,
        )),
        new_user.email@.contains('@') ==> (prepared matches Ok(account)
            && SubAdmin::provisioned_from(account, new_user)),
{
    if !is_email_valid(new_user.email.as_str()) {
        return Err(Reply::new(STATUS_BAD_REQUEST, "Invalid email format"));
    }
    let hashed_password = match multi_scheme_hash(new_user.password.as_str()) {
        Ok(hash) => hash,
        Err(_) => {
            return Err(Reply::new(STATUS_INTERNAL_SERVER_ERROR, "Failed to hash password"));
        },
    };
    let id = assign_id(new_user.id);
    let metrics_id = assign_id(new_user.metrics_id);
    Ok(SubAdmin::enrolled(new_user, hashed_password, id, metrics_id, unix_micros()))
}

/// Prepares a staff member for storage, with identifiers drawn where none
/// were asked for. An email without `@` is refused before anything else is
/// done; every other request is prepared, since no password fails to hash.
pub fn createstaff(new_user: Staff) -> (prepared: Result<Staff, Reply>)
    ensures
        !new_user.email@.contains('@') ==> (prepared matches Err(reply) && invalid_email_reply(
            reply,
        )),
        new_user.email@.contains('@') ==> (prepared matches Ok(account)
            && Staff::provisioned_from(account, new_user)),
{
    if !is_email_valid(new_user.email.as_str()) {
        return Err(Reply::new(STATUS_BAD_REQUEST, "Invalid email format"));
    }
    let hashed_password = match multi_scheme_hash(new_user.password.as_str()) {
        Ok(hash) => hash,
        Err(_) => {
            return Err(Reply::new(STATUS_INTERNAL_SERVER_ERROR, "Failed to hash password"));
        },
    };
    let id = assign_id(new_user.id);
    let metrics_id = assign_id(new_user.metrics_id);
    Ok(Staff::enrolled(new_user, hashed_password, id, metrics_id, unix_micros()))
}

/// Prepares a technician for storage. An email without `@` is refused
/// before anything else is done; every other request is prepared, since no
/// password fails to hash.
pub fn createtechnician(new_user: Technician) -> (prepared: Result<Technician, Reply>)
    ensures
        !new_user.email@.contains('@') ==> (prepared matches Err(reply) && invalid_email_reply(
            reply,
        )),
        new_user.email@.contains('@') ==> (prepared matches Ok(account)
            && Technician::provisioned_from(account, new_user)),
{
    if !is_email_valid(new_user.email.as_str()) {
        return Err(Reply::new(STATUS_BAD_REQUEST, "Invalid email format"));
    }
    let hashed_password = match multi_scheme_hash(new_user.password.as_str()) {
        Ok(hash) => hash,
        Err(_) => {
            return Err(Reply::new(STATUS_INTERNAL_SERVER_ERROR, "Failed to hash password"));
        },
    };
    Ok(Technician::enrolled(new_user, hashed_password, unix_micros()))
}

/// What the four kinds of account have in common.
pub trait Account: Sized {
    /// The email of the account.
    spec fn email_text(&self) -> Seq<char>;

    /// The stored password hash of the account.
    spec fn password_text(&self) -> Seq<char>;

    /// The email of the account.
    fn email_of(&self) -> (email: &String)
        ensures
            email@ == self.email_text(),
    ;

    /// The stored password hash of the account.
    fn password_of(&self) -> (hash: &String)
        ensures
            hash@ == self.password_text(),
    ;

    /// A copy of the account.
    fn duplicate(&self) -> (copy: Self)
        ensures
            copy == *self,
    ;
}

/// A copy of an optional text.
pub fn copy_text(text: &Option<String>) -> (copy: Option<String>)
    ensures
        copy == *text,
{
    match text {
        Some(value) => Some(value.clone()),
        None => None,
    }
}

impl Account for SuperAdmin {
    open spec fn email_text(&self) -> Seq<char> {
        self.email@
    }

    open spec fn password_text(&self) -> Seq<char> {
        self.password@
    }

    fn email_of(&self) -> (email: &String) {
        &self.email
    }

    fn password_of(&self) -> (hash: &String) {
        &self.password
    }

    fn duplicate(&self) -> (copy: Self) {
        SuperAdmin {
            id: self.id,
            name: self.name.clone(),
            email: self.email.clone(),
            password: self.password.clone(),
            created_at: self.created_at,
            updated_at: self.updated_at,
        }
    }
}

impl Account for SubAdmin {
    open spec fn email_text(&self) -> Seq<char> {
        self.email@
    }

    open spec fn password_text(&self) -> Seq<char> {
        self.password@
    }

    fn email_of(&self) -> (email: &String) {
        &self.email
    }

    fn password_of(&self) -> (hash: &String) {
        &self.password
    }

    fn duplicate(&self) -> (copy: Self) {
        SubAdmin {
            id: self.id,
            metrics_id: self.metrics_id,
            company_name: copy_text(&self.company_name),
            email: self.email.clone(),
            phone: self.phone.clone(),
            password: self.password.clone(),
            created_at: self.created_at,
            updated_at: self.updated_at,
        }
    }
}

impl Account for Staff {
    open spec fn email_text(&self) -> Seq<char> {
        self.email@
    }

    open spec fn password_text(&self) -> Seq<char> {
        self.password@
    }

    fn email_of(&self) -> (email: &String) {
        &self.email
    }

    fn password_of(&self) -> (hash: &String) {
        &self.password
    }

    fn duplicate(&self) -> (copy: Self) {
        Staff {
            id: self.id,
            metrics_id: self.metrics_id,
            name: self.name.clone(),
            email: self.email.clone(),
            password: self.password.clone(),
            created_at: self.created_at,
            updated_at: self.updated_at,
            company_affiliated_to: copy_text(&self.company_affiliated_to),
        }
    }
}

impl Account for Technician {
    open spec fn email_text(&self) -> Seq<char> {
        self.email@
    }

    open spec fn password_text(&self) -> Seq<char> {
        self.password@
    }

    fn email_of(&self) -> (email: &String) {
        &self.email
    }

    fn password_of(&self) -> (hash: &String) {
        &self.password
    }

    fn duplicate(&self) -> (copy: Self) {
        Technician {
            id: self.id,
            name: self.name.clone(),
            email: self.email.clone(),
            password: self.password.clone(),
            created_at: self.created_at,
            updated_at: self.updated_at,
        }
    }
}

} // verus!
