use crate::claims::token_of;
use crate::claims::Claims;
use crate::claims::TOKEN_LIFETIME;
use crate::errors::AppError;
use crate::user::hash_for_storage;
use crate::user::password_verifies;
use crate::user::Permission;
use crate::user::User;
use crate::users::contains_username;
use crate::users::UsersTable;
use crate::validation;
use crate::validation::byte_len;
use crate::validation::password_ok;
use crate::validation::username_ok;
use vstd::prelude::*;

verus! {

/// The signup request body.
pub struct Body {
    pub username: String,
    pub email: String,
    pub password: String,
}

/// Why a signup was refused. The first two carry the validation message
/// for the boundary's answer; all three are 400-class, the last is a 500.
#[derive(Debug)]
pub enum SignupError {
    InvalidUsername(String),
    InvalidPassword(String),
    UsernameTaken,
    Internal,
}

impl SignupError {
    /// The HTTP status code the boundary reports.
    pub fn status_code(&self) -> (code: u16)
        ensures
            code == 500 <==> self is Internal,
    {
        match self {
            SignupError::Internal => 500,
            _ => 400,
        }
    }
}

/// Signup: validate the username and password shapes, hash the password,
/// build the user with a fresh id and session epoch, sign a first token,
/// and insert the record — the store's uniqueness constraint refuses a
/// taken username. On success the caller receives the stored user and the
/// session token; on any refusal the table is unchanged except for the
/// inserted record never appearing.
pub fn new(users: &mut UsersTable, body: Body, jwt_secret: &str, insert_ok: bool) -> (r: Result<
    (User, String),
    SignupError,
>)
    requires
        old(users).inv(),
    ensures
        final(users).inv(),
        match r {
            Ok(p) => {
                &&& username_ok(body.username@)
                &&& password_ok(body.password@)
                &&& p.0@.username == body.username@
                &&& p.0@.email == body.email@
                &&& p.0@.permission == Permission::USER
                &&& password_verifies(p.0@.password, body.password@)
                &&& !contains_username(old(users)@, body.username@)
                &&& final(users)@ == old(users)@.push(p.0@)
                &&& exists|now: u64|
                    now + TOKEN_LIFETIME <= u64::MAX && p.1@ == #[trigger] token_of(
                        p.0@.uuid,
                        p.0@.tokenid,
                        now,
                        (now + TOKEN_LIFETIME) as u64,
                        jwt_secret@,
                    )
            },
            Err(e) => {
                &&& final(users)@ == old(users)@
                &&& (e matches SignupError::InvalidUsername(m) ==> !username_ok(body.username@) && (
                !(4 <= byte_len(body.username@) <= 16) ==> m@
                    == "Length of username not in bounds of 4-16"@))
                &&& (e matches SignupError::InvalidPassword(_) ==> username_ok(body.username@)
                    && !password_ok(body.password@))
                &&& (e is UsernameTaken ==> username_ok(body.username@) && password_ok(
                    body.password@,
                ) && contains_username(old(users)@, body.username@))
                &&& (e is Internal ==> username_ok(body.username@) && password_ok(body.password@))
            },
        },
{
    let (ok_u, msg_u) = validation::username(&body.username);
    if !ok_u {
        return Err(SignupError::InvalidUsername(msg_u));
    }
    let (ok_p, msg_p) = validation::password(&body.password);
    if !ok_p {
        return Err(SignupError::InvalidPassword(msg_p));
    }
    let hashed = match hash_for_storage(body.password.as_str()) {
        Some(h) => h,
        None => {
            return Err(SignupError::Internal);
        },
    };
    let user = User::new(body.username, hashed, body.email, Permission::USER);
    let token = match Claims::generate_jwt(jwt_secret, &user) {
        Some(t) => t,
        None => {
            return Err(SignupError::Internal);
        },
    };
    match users.insert(user.clone(), insert_ok) {
        Ok(()) => Ok((user, token)),
        Err(AppError::Validation) => Err(SignupError::UsernameTaken),
        Err(_) => Err(SignupError::Internal),
    }
}

} // verus!
