use crate::claims::token_of;
use crate::claims::Claims;
use crate::claims::TOKEN_LIFETIME;
use crate::errors::AppError;
use crate::sys::fresh_uuid;
use crate::user::hash_for_storage;
use crate::user::password_verifies;
use crate::user::AuthUser;
use crate::user::UserView;
use crate::users::contains_uuid;
use crate::users::UsersTable;
use vstd::prelude::*;

verus! {

/// The password-change request body.
pub struct Body {
    pub old_password: String,
    pub new_password: String,
}

/// That `post` is `pre` with one user's digest and session epoch replaced
/// together — the atomic credential rotation.
pub open spec fn spec_credentials_rotated(
    pre: Seq<UserView>,
    post: Seq<UserView>,
    uuid: u128,
    new_password: Seq<char>,
    new_tokenid: u128,
) -> bool {
    exists|j: int|
        0 <= j < pre.len() && (#[trigger] pre[j]).uuid == uuid && post == pre.update(
            j,
            UserView { password: new_password, tokenid: new_tokenid, ..pre[j] },
        )
}

/// Change the password: confirm the old one against the stored digest,
/// hash the new one, draw a fresh session epoch, persist digest and epoch
/// in one update, and only then issue a token bound to the new epoch. A
/// refused update leaves digest and epoch untouched together — no partial
/// revocation, and the old token keeps working.
pub fn change_password(
    users: &mut UsersTable,
    auth_user: &AuthUser,
    body: Body,
    jwt_secret: &str,
    update_ok: bool,
) -> (r: Result<String, AppError>)
    requires
        old(users).inv(),
    ensures
        final(users).inv(),
        match r {
            Ok(t) => {
                &&& password_verifies(auth_user.0@.password, body.old_password@)
                &&& exists|d: Seq<char>, tid: u128, now: u64|
                    #![trigger password_verifies(d, body.new_password@), token_of(
                        auth_user.0@.uuid,
                        tid,
                        now,
                        (now + TOKEN_LIFETIME) as u64,
                        jwt_secret@,
                    )]
                    password_verifies(d, body.new_password@) && spec_credentials_rotated(
                        old(users)@,
                        final(users)@,
                        auth_user.0@.uuid,
                        d,
                        tid,
                    ) && now + TOKEN_LIFETIME <= u64::MAX && t@ == token_of(
                        auth_user.0@.uuid,
                        tid,
                        now,
                        (now + TOKEN_LIFETIME) as u64,
                        jwt_secret@,
                    )
            },
            Err(e) => {
                &&& (e == AppError::Unauthorized || e == AppError::NotFound || e
                    == AppError::Internal)
                &&& (e == AppError::Unauthorized <==> !password_verifies(
                    auth_user.0@.password,
                    body.old_password@,
                ))
                &&& (e == AppError::Unauthorized ==> final(users)@ == old(users)@)
                &&& (e == AppError::NotFound ==> !contains_uuid(old(users)@, auth_user.0@.uuid)
                    && final(users)@ == old(users)@)
                &&& (e == AppError::Internal ==> final(users)@ == old(users)@ || exists|
                    d: Seq<char>,
                    tid: u128,
                |
                    #![trigger spec_credentials_rotated(
                        old(users)@,
                        final(users)@,
                        auth_user.0@.uuid,
                        d,
                        tid,
                    )]
                    password_verifies(d, body.new_password@) && spec_credentials_rotated(
                        old(users)@,
                        final(users)@,
                        auth_user.0@.uuid,
                        d,
                        tid,
                    ))
            },
        },
        !update_ok ==> r is Err && final(users)@ == old(users)@,
{
    let user = &auth_user.0;
    if !user.compare_passwords(body.old_password) {
        return Err(AppError::Unauthorized);
    }
    let new_hashed = match hash_for_storage(body.new_password.as_str()) {
        Some(h) => h,
        None => {
            return Err(AppError::Internal);
        },
    };
    let ghost dview = new_hashed@;
    let new_tokenid = fresh_uuid();
    match users.update_credentials(user.uuid, new_hashed, new_tokenid, update_ok) {
        Ok(()) => {},
        Err(AppError::NotFound) => {
            return Err(AppError::NotFound);
        },
        Err(_) => {
            return Err(AppError::Internal);
        },
    }
    let mut updated = user.clone();
    updated.tokenid = new_tokenid;
    match Claims::generate_jwt(jwt_secret, &updated) {
        Some(t) => {
            proof {
                let now0 = choose|now: u64|
                    now + TOKEN_LIFETIME <= u64::MAX && t@ == #[trigger] token_of(
                        updated@.uuid,
                        updated@.tokenid,
                        now,
                        (now + TOKEN_LIFETIME) as u64,
                        jwt_secret@,
                    );
                assert(password_verifies(dview, body.new_password@) && spec_credentials_rotated(
                    old(users)@,
                    users@,
                    auth_user.0@.uuid,
                    dview,
                    new_tokenid,
                ) && now0 + TOKEN_LIFETIME <= u64::MAX && t@ == token_of(
                    auth_user.0@.uuid,
                    new_tokenid,
                    now0,
                    (now0 + TOKEN_LIFETIME) as u64,
                    jwt_secret@,
                ));
            }
            Ok(t)
        },
        None => Err(AppError::Internal),
    }
}

} // verus!
