use crate::claims::token_of;
use crate::claims::Claims;
use crate::claims::TOKEN_LIFETIME;
use crate::errors::AppError;
use crate::user::AuthUser;
use vstd::prelude::*;

verus! {

/// Refresh: re-issue a token for a previously validated caller, bound to
/// the user's current session epoch, with the expiry extended to one
/// lifetime from now.
pub fn refresh_token(auth_user: &AuthUser, jwt_secret: &str) -> (r: Result<String, AppError>)
    ensures
        match r {
            Ok(t) => exists|now: u64|
                now + TOKEN_LIFETIME <= u64::MAX && t@ == #[trigger] token_of(
                    auth_user.0@.uuid,
                    auth_user.0@.tokenid,
                    now,
                    (now + TOKEN_LIFETIME) as u64,
                    jwt_secret@,
                ),
            Err(e) => e == AppError::Internal,
        },
{
    match Claims::generate_jwt(jwt_secret, &auth_user.0) {
        Some(t) => Ok(t),
        None => Err(AppError::Internal),
    }
}

} // verus!
