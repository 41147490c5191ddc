use crate::claims::decode_token;
use crate::errors::AppError;
use crate::user::AuthUser;
use crate::users::UsersTable;
use vstd::prelude::*;

verus! {

/// The authentication middleware's core: decode the presented bearer
/// token, load the record its subject names, and validate the claims
/// against the live user — above all that the session epoch in the token
/// is still the user's current one. Every way a token can fail (forged,
/// malformed, expired, unknown subject, revoked epoch) is the same
/// `Unauthorized`: the caller never learns which. What the decoded claims
/// must satisfy is fixed by `Claims::validate_claims`; this function
/// promises only that the identity it hands over is a record of the table,
/// since the decoder itself stands outside the proofs.
pub fn auth(users: &UsersTable, token: &str, jwt_secret: &str, now: u64) -> (r: Result<
    AuthUser,
    AppError,
>)
    ensures
        match r {
            Ok(au) => users@.contains(au.0@),
            Err(e) => e == AppError::Unauthorized,
        },
{
    let claims = match decode_token(token, jwt_secret) {
        Some(c) => c,
        None => {
            return Err(AppError::Unauthorized);
        },
    };
    let user = users.find_by_uuid(claims.sub);
    match claims.validate_claims(now, user) {
        Some(u) => Ok(AuthUser(u)),
        None => Err(AppError::Unauthorized),
    }
}

} // verus!
