use crate::claims::token_of;
use crate::claims::Claims;
use crate::claims::TOKEN_LIFETIME;
use crate::errors::AppError;
use crate::user::password_verifies;
use crate::user::UserView;
use crate::users::contains_username;
use crate::users::UsersTable;
use vstd::prelude::*;

verus! {

/// The login request body.
pub struct Body {
    pub username: String,
    pub password: String,
}

/// Login: look the user up by username, compare the password attempt with
/// the stored digest, and issue a fresh token bound to the user's current
/// session epoch. An unknown username is a `Validation` error (the
/// boundary answers 400), a failed comparison `Unauthorized` (401), and a
/// refused signing `Internal`.
pub fn login(users: &UsersTable, body: &Body, jwt_secret: &str) -> (r: Result<String, AppError>)
    ensures
        match r {
            Ok(t) => exists|u: UserView, now: u64|
                users@.contains(u) && u.username == body.username@ && password_verifies(
                    u.password,
                    body.password@,
                ) && now + TOKEN_LIFETIME <= u64::MAX && t@ == #[trigger] token_of(
                    u.uuid,
                    u.tokenid,
                    now,
                    (now + TOKEN_LIFETIME) as u64,
                    jwt_secret@,
                ),
            Err(e) => {
                ||| (e == AppError::Validation && !contains_username(users@, body.username@))
                ||| (e == AppError::Unauthorized && exists|u: UserView|
                    #[trigger] users@.contains(u) && u.username == body.username@
                        && !password_verifies(u.password, body.password@))
                ||| (e == AppError::Internal && exists|u: UserView|
                    #[trigger] users@.contains(u) && u.username == body.username@
                        && password_verifies(u.password, body.password@))
            },
        },
{
    let user = match users.find_by_username(&body.username) {
        Some(u) => u,
        None => {
            return Err(AppError::Validation);
        },
    };
    if !user.compare_passwords(body.password.clone()) {
        return Err(AppError::Unauthorized);
    }
    match Claims::generate_jwt(jwt_secret, &user) {
        Some(t) => {
            proof {
                let now0 = choose|now: u64|
                    now + TOKEN_LIFETIME <= u64::MAX && t@ == #[trigger] token_of(
                        user@.uuid,
                        user@.tokenid,
                        now,
                        (now + TOKEN_LIFETIME) as u64,
                        jwt_secret@,
                    );
                assert(users@.contains(user@) && user@.username == body.username@
                    && password_verifies(user@.password, body.password@) && now0 + TOKEN_LIFETIME
                    <= u64::MAX && t@ == token_of(
                    user@.uuid,
                    user@.tokenid,
                    now0,
                    (now0 + TOKEN_LIFETIME) as u64,
                    jwt_secret@,
                ));
            }
            Ok(t)
        },
        None => Err(AppError::Internal),
    }
}

} // verus!
