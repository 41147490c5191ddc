use crate::sys::current_time;
use crate::sys::fresh_uuid;
use vstd::prelude::*;

verus! {

/// A user's rank. Only ordinary users are created today; admin rights are
/// reserved for later.
#[derive(Clone, Copy, Debug, PartialEq, Eq, Structural)]
pub enum Permission {
    USER,
    ADMIN,
}

/// Names what argon2's password verification decides for a stored digest
/// and an un-hashed attempt: whether the digest is a well-formed PHC string
/// whose hash matches the attempt. The outcome depends on the two strings
/// alone.
pub uninterp spec fn password_verifies(digest: Seq<char>, attempt: Seq<char>) -> bool;

/// Relies on argon2::PasswordVerifier::verify_password for the `str` digest
/// form, which parses the stored PHC string and recomputes the hash: true
/// exactly when the digest parses and matches the attempt.
#[verifier::external_body]
fn argon2_verify(digest: &str, attempt: &str) -> (r: bool)
    ensures
        r == password_verifies(digest@, attempt@),
{
    let argon = argon2::Argon2::default();
    <argon2::Argon2 as argon2::PasswordVerifier<str>>::verify_password(
        &argon,
        attempt.as_bytes(),
        digest,
    )
        .is_ok()
}

/// Relies on argon2::PasswordHasher::hash_password, which draws a fresh
/// random salt and returns the digest as a PHC string. Of the outcome only
/// this is promised, and argon2's documentation gives it for every salt:
/// the digest verifies against the password that was hashed.
#[verifier::external_body]
fn argon2_hash(password: &str) -> (r: Option<String>)
    ensures
        r matches Some(d) ==> password_verifies(d@, password@),
{
    <argon2::Argon2 as argon2::PasswordHasher<argon2::PasswordHash>>::hash_password(
        &argon2::Argon2::default(),
        password.as_bytes(),
    )
        .map(|h| h.to_string())
        .ok()
}

/// Hash a new password for storage. Shared by the signup and the password
/// change flows; `None` when the hashing primitive refuses.
pub fn hash_for_storage(password: &str) -> (r: Option<String>)
    ensures
        r matches Some(d) ==> password_verifies(d@, password@),
{
    argon2_hash(password)
}

/// A user record: credentials, rank, and the rotating session epoch
/// (`tokenid`) that makes issued tokens revocable.
pub struct User {
    pub uuid: u128,
    pub username: String,
    pub password: String,
    pub email: String,
    pub permission: Permission,
    pub tokenid: u128,
    pub timestamp: u64,
}

/// The mathematical image of a user record.
pub struct UserView {
    pub uuid: u128,
    pub username: Seq<char>,
    pub password: Seq<char>,
    pub email: Seq<char>,
    pub permission: Permission,
    pub tokenid: u128,
    pub timestamp: u64,
}

impl View for User {
    type V = UserView;

    open spec fn view(&self) -> UserView {
        UserView {
            uuid: self.uuid,
            username: self.username@,
            password: self.password@,
            email: self.email@,
            permission: self.permission,
            tokenid: self.tokenid,
            timestamp: self.timestamp,
        }
    }
}

impl DeepView for User {
    type V = UserView;

    open spec fn deep_view(&self) -> UserView {
        self@
    }
}

impl Clone for User {
    fn clone(&self) -> (r: Self)
        ensures
            r@ == self@,
    {
        User {
            uuid: self.uuid,
            username: self.username.clone(),
            password: self.password.clone(),
            email: self.email.clone(),
            permission: self.permission,
            tokenid: self.tokenid,
            timestamp: self.timestamp,
        }
    }
}

/// The authenticated identity that the routing layer hands to a handler,
/// produced by token validation and passed as an explicit value.
pub struct AuthUser(pub User);

impl Clone for AuthUser {
    fn clone(&self) -> (r: Self)
        ensures
            r.0@ == self.0@,
    {
        AuthUser(self.0.clone())
    }
}

impl User {
    /// Returns a user with the given (already hashed) credentials, a fresh
    /// uuid, a fresh session epoch, and the current time.
    pub fn new(username: String, password: String, email: String, permission: Permission) -> (u:
        User)
        ensures
            u@.username == username@,
            u@.password == password@,
            u@.email == email@,
            u@.permission == permission,
    {
        User {
            uuid: fresh_uuid(),
            username,
            password,
            email,
            permission,
            tokenid: fresh_uuid(),
            timestamp: current_time(),
        }
    }

    /// Compares the stored digest with an un-hashed attempt. False when the
    /// digest does not parse or does not match.
    pub fn compare_passwords(&self, attempt: String) -> (r: bool)
        ensures
            r == password_verifies(self@.password, attempt@),
    {
        argon2_verify(self.password.as_str(), attempt.as_str())
    }
}

} // verus!
