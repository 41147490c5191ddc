use drive_lib::authenticate::auth;
use drive_lib::errors::AppError;
use drive_lib::login;
use drive_lib::password_change;
use drive_lib::signup;
use drive_lib::signup::SignupError;
use drive_lib::user::hash_for_storage;
use drive_lib::user::AuthUser;
use drive_lib::user::Permission;
use drive_lib::user::User;
use drive_lib::username_change;
use drive_lib::users::UsersTable;

const SECRET: &str = "test-signing-key";

fn now() -> u64 {
    let t = chrono::Utc::now().timestamp();
    if t < 0 {
        0
    } else {
        t as u64
    }
}

#[test]
fn hashed_passwords_verify_and_differ_from_the_password() {
    let digest = hash_for_storage("Sw0rd.fgh").unwrap();
    assert_ne!(digest, "Sw0rd.fgh");
    let user = User::new(
        "carol".to_string(),
        digest,
        "carol@example.com".to_string(),
        Permission::USER,
    );
    assert!(user.compare_passwords("Sw0rd.fgh".to_string()));
    assert!(!user.compare_passwords("Sw0rd.fgi".to_string()));
}

#[test]
fn signup_login_and_token_validation_round_trip() {
    let mut users = UsersTable::new();
    let body = signup::Body {
        username: "alice1".to_string(),
        email: "alice@example.com".to_string(),
        password: "Passw0rd.".to_string(),
    };
    let (user, token) = signup::new(&mut users, body, SECRET, true).unwrap();
    assert_eq!(user.username, "alice1");

    // the signup token authenticates
    let au = auth(&users, &token, SECRET, now()).unwrap();
    assert_eq!(au.0.uuid, user.uuid);

    // a fresh login issues a working token too
    let login_body = login::Body {
        username: "alice1".to_string(),
        password: "Passw0rd.".to_string(),
    };
    let token2 = login::login(&users, &login_body, SECRET).unwrap();
    assert!(auth(&users, &token2, SECRET, now()).is_ok());
}

#[test]
fn login_failures_are_told_apart_for_the_boundary() {
    let mut users = UsersTable::new();
    let body = signup::Body {
        username: "bob42".to_string(),
        email: "bob@example.com".to_string(),
        password: "Passw0rd.".to_string(),
    };
    signup::new(&mut users, body, SECRET, true).unwrap();

    let wrong_password = login::Body {
        username: "bob42".to_string(),
        password: "Passw0rd?".to_string(),
    };
    assert_eq!(
        login::login(&users, &wrong_password, SECRET),
        Err(AppError::Unauthorized)
    );
    let no_such_user = login::Body {
        username: "nobody".to_string(),
        password: "Passw0rd.".to_string(),
    };
    assert_eq!(
        login::login(&users, &no_such_user, SECRET),
        Err(AppError::Validation)
    );
}

#[test]
fn forged_tokens_are_rejected() {
    let mut users = UsersTable::new();
    let body = signup::Body {
        username: "dave9".to_string(),
        email: "dave@example.com".to_string(),
        password: "Passw0rd.".to_string(),
    };
    let (_, token) = signup::new(&mut users, body, SECRET, true).unwrap();
    assert!(auth(&users, &token, "another-secret", now()).is_err());
    assert!(auth(&users, "not.a.token", SECRET, now()).is_err());
    assert!(auth(&users, &token, SECRET, now()).is_ok());
}

#[test]
fn a_password_change_revokes_earlier_tokens() {
    let mut users = UsersTable::new();
    let body = signup::Body {
        username: "erin7".to_string(),
        email: "erin@example.com".to_string(),
        password: "Passw0rd.".to_string(),
    };
    let (user, old_token) = signup::new(&mut users, body, SECRET, true).unwrap();
    assert!(auth(&users, &old_token, SECRET, now()).is_ok());

    let change = password_change::Body {
        old_password: "Passw0rd.".to_string(),
        new_password: "N3w.Secret".to_string(),
    };
    let new_token =
        password_change::change_password(&mut users, &AuthUser(user), change, SECRET, true)
            .unwrap();

    // replaying the old cookie now fails; the fresh one works
    assert!(auth(&users, &old_token, SECRET, now()).is_err());
    assert!(auth(&users, &new_token, SECRET, now()).is_ok());

    // and only the new password logs in
    let old_login = login::Body {
        username: "erin7".to_string(),
        password: "Passw0rd.".to_string(),
    };
    assert!(login::login(&users, &old_login, SECRET).is_err());
    let new_login = login::Body {
        username: "erin7".to_string(),
        password: "N3w.Secret".to_string(),
    };
    assert!(login::login(&users, &new_login, SECRET).is_ok());
}

#[test]
fn a_refused_credential_update_revokes_nothing() {
    let mut users = UsersTable::new();
    let body = signup::Body {
        username: "frank3".to_string(),
        email: "frank@example.com".to_string(),
        password: "Passw0rd.".to_string(),
    };
    let (user, old_token) = signup::new(&mut users, body, SECRET, true).unwrap();

    let change = password_change::Body {
        old_password: "Passw0rd.".to_string(),
        new_password: "N3w.Secret".to_string(),
    };
    let r = password_change::change_password(&mut users, &AuthUser(user), change, SECRET, false);
    assert_eq!(r, Err(AppError::Internal));

    // no partial revocation: the old token and old password still stand
    assert!(auth(&users, &old_token, SECRET, now()).is_ok());
    let old_login = login::Body {
        username: "frank3".to_string(),
        password: "Passw0rd.".to_string(),
    };
    assert!(login::login(&users, &old_login, SECRET).is_ok());
}

#[test]
fn a_wrong_old_password_is_unauthorized() {
    let mut users = UsersTable::new();
    let body = signup::Body {
        username: "gina88".to_string(),
        email: "gina@example.com".to_string(),
        password: "Passw0rd.".to_string(),
    };
    let (user, _) = signup::new(&mut users, body, SECRET, true).unwrap();
    let change = password_change::Body {
        old_password: "Wr0ng.old".to_string(),
        new_password: "N3w.Secret".to_string(),
    };
    assert_eq!(
        password_change::change_password(&mut users, &AuthUser(user), change, SECRET, true),
        Err(AppError::Unauthorized)
    );
}

#[test]
fn a_username_change_keeps_tokens_and_password() {
    let mut users = UsersTable::new();
    let body = signup::Body {
        username: "henry5".to_string(),
        email: "henry@example.com".to_string(),
        password: "Passw0rd.".to_string(),
    };
    let (user, token) = signup::new(&mut users, body, SECRET, true).unwrap();

    let change = username_change::Body {
        new_username: "henry6".to_string(),
    };
    username_change::change_username(&mut users, &AuthUser(user), change, true).unwrap();

    // tokens issued before the change keep working
    assert!(auth(&users, &token, SECRET, now()).is_ok());
    // and the account logs in under the new name only
    let new_login = login::Body {
        username: "henry6".to_string(),
        password: "Passw0rd.".to_string(),
    };
    assert!(login::login(&users, &new_login, SECRET).is_ok());
    let old_login = login::Body {
        username: "henry5".to_string(),
        password: "Passw0rd.".to_string(),
    };
    assert_eq!(
        login::login(&users, &old_login, SECRET),
        Err(AppError::Validation)
    );
}

#[test]
fn a_refreshed_token_authenticates() {
    let mut users = UsersTable::new();
    let body = signup::Body {
        username: "kate4".to_string(),
        email: "kate@example.com".to_string(),
        password: "Passw0rd.".to_string(),
    };
    let (user, _) = signup::new(&mut users, body, SECRET, true).unwrap();
    let refreshed = drive_lib::refresh::refresh_token(&AuthUser(user), SECRET).unwrap();
    assert!(auth(&users, &refreshed, SECRET, now()).is_ok());
}

#[test]
fn signup_refusals() {
    let mut users = UsersTable::new();
    let bad_name = signup::Body {
        username: "ab".to_string(),
        email: "x@example.com".to_string(),
        password: "Passw0rd.".to_string(),
    };
    match signup::new(&mut users, bad_name, SECRET, true) {
        Err(SignupError::InvalidUsername(m)) => {
            assert_eq!(m, "Length of username not in bounds of 4-16");
        }
        other => panic!("expected an invalid-username refusal, got {:?}", other.is_ok()),
    }
    let bad_password = signup::Body {
        username: "ivan2".to_string(),
        email: "x@example.com".to_string(),
        password: "weak".to_string(),
    };
    match signup::new(&mut users, bad_password, SECRET, true) {
        Err(SignupError::InvalidPassword(m)) => {
            assert_eq!(m, "Length of password is not in bounds of 8-30");
        }
        other => panic!("expected an invalid-password refusal, got {:?}", other.is_ok()),
    }
    let good = signup::Body {
        username: "ivan2".to_string(),
        email: "x@example.com".to_string(),
        password: "Passw0rd.".to_string(),
    };
    signup::new(&mut users, good, SECRET, true).unwrap();
    let taken = signup::Body {
        username: "ivan2".to_string(),
        email: "y@example.com".to_string(),
        password: "Passw0rd.".to_string(),
    };
    match signup::new(&mut users, taken, SECRET, true) {
        Err(SignupError::UsernameTaken) => {}
        other => panic!("expected a taken-username refusal, got {:?}", other.is_ok()),
    }
}
