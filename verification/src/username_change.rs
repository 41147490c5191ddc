use crate::errors::AppError;
use crate::user::AuthUser;
use crate::user::UserView;
use crate::users::contains_username;
use crate::users::contains_uuid;
use crate::users::UsersTable;
use vstd::prelude::*;

verus! {

/// The username-change request body.
pub struct Body {
    pub new_username: String,
}

/// That `post` is `pre` with one user's username replaced and everything
/// else — the stored digest and the session epoch above all — untouched.
pub open spec fn spec_username_changed(
    pre: Seq<UserView>,
    post: Seq<UserView>,
    uuid: u128,
    new_username: Seq<char>,
) -> bool {
    exists|j: int|
        0 <= j < pre.len() && (#[trigger] pre[j]).uuid == uuid && post == pre.update(
            j,
            UserView { username: new_username, ..pre[j] },
        )
}

/// Change the username: a simple metadata update. The session epoch does
/// not rotate, so tokens issued before the change keep working. A name
/// already taken, like any other store refusal, is an internal error and
/// leaves the table unchanged.
pub fn change_username(users: &mut UsersTable, auth_user: &AuthUser, body: Body, update_ok: bool) -> (r:
    Result<(), AppError>)
    requires
        old(users).inv(),
    ensures
        final(users).inv(),
        match r {
            Ok(u) => spec_username_changed(
                old(users)@,
                final(users)@,
                auth_user.0@.uuid,
                body.new_username@,
            ),
            Err(e) => {
                &&& final(users)@ == old(users)@
                &&& (e == AppError::Internal || e == AppError::NotFound)
                &&& (e == AppError::NotFound ==> !contains_uuid(old(users)@, auth_user.0@.uuid))
                &&& (e == AppError::Internal ==> !update_ok || contains_username(
                    old(users)@,
                    body.new_username@,
                ))
            },
        },
{
    users.update_username(auth_user.0.uuid, body.new_username, update_ok)
}

} // verus!
