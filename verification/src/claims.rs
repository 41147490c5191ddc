use crate::sys::current_time;
use crate::user::User;
use crate::user::UserView;
use vstd::prelude::*;

verus! {

/// Seconds a token stays valid: one year.
pub const TOKEN_LIFETIME: u64 = 31536000;

/// The claims carried in a session token: the subject user's id, the user's
/// session epoch at issue time (`tokenid`), and the issue and expiry
/// instants. They are reconstructed per request from the signed token and
/// cross-checked against live user state.
#[derive(Clone, Copy, Debug, PartialEq, Eq, Structural)]
pub struct Claims {
    pub sub: u128,
    pub tokenid: u128,
    pub iat: u64,
    pub exp: u64,
}

/// Names the compact serialization that jsonwebtoken's encode gives these
/// claims under this secret (HS256 under the default header): a function of
/// its arguments alone.
pub uninterp spec fn token_of(
    sub: u128,
    tokenid: u128,
    iat: u64,
    exp: u64,
    secret: Seq<char>,
) -> Seq<char>;

/// Relies on jsonwebtoken::encode with Header::default() and
/// EncodingKey::from_secret. The ids travel in their hyphenated uuid form,
/// the instants as integers, the fields in fixed order.
#[verifier::external_body]
fn encode_claims(claims: &Claims, secret: &str) -> (r: Option<String>)
    ensures
        r matches Some(t) ==> t@ == token_of(
            claims.sub,
            claims.tokenid,
            claims.iat,
            claims.exp,
            secret@,
        ),
{
    let mut m = serde_json::Map::new();
    let sub = uuid::Uuid::from_u128(claims.sub).to_string();
    let tokenid = uuid::Uuid::from_u128(claims.tokenid).to_string();
    m.insert("sub".to_owned(), serde_json::Value::String(sub));
    m.insert("tokenid".to_owned(), serde_json::Value::String(tokenid));
    m.insert("iat".to_owned(), serde_json::Value::from(claims.iat));
    m.insert("exp".to_owned(), serde_json::Value::from(claims.exp));
    jsonwebtoken::encode(
        &jsonwebtoken::Header::default(),
        &serde_json::Value::Object(m),
        &jsonwebtoken::EncodingKey::from_secret(secret.as_bytes()),
    )
        .ok()
}

/// Relies on jsonwebtoken::decode with Validation::default(), which checks
/// the signature against the secret and the expiry against the process
/// clock. The outcome depends on that clock, so nothing is promised of it;
/// what is accepted here is cross-checked by `validate_claims`.
#[verifier::external_body]
fn decode_claims(token: &str, secret: &str) -> Option<Claims> {
    let key = jsonwebtoken::DecodingKey::from_secret(secret.as_bytes());
    let validation = jsonwebtoken::Validation::default();
    let data = jsonwebtoken::decode::<serde_json::Value>(token, &key, &validation).ok()?;
    let sub = uuid::Uuid::parse_str(data.claims.get("sub")?.as_str()?).ok()?.as_u128();
    let tokenid = uuid::Uuid::parse_str(data.claims.get("tokenid")?.as_str()?).ok()?.as_u128();
    let iat = data.claims.get("iat")?.as_u64()?;
    let exp = data.claims.get("exp")?.as_u64()?;
    Some(Claims { sub, tokenid, iat, exp })
}

/// Decode a presented bearer token. `None` for a forged, malformed or
/// (by the decoder's clock) expired token.
pub fn decode_token(token: &str, jwt_secret: &str) -> Option<Claims> {
    decode_claims(token, jwt_secret)
}

impl Claims {
    /// The claims of a fresh token: subject and current session epoch from
    /// the user, issued at `now`, expiring one lifetime later.
    pub open spec fn spec_for_user(u: UserView, now: u64) -> Claims {
        Claims { sub: u.uuid, tokenid: u.tokenid, iat: now, exp: (now + TOKEN_LIFETIME) as u64 }
    }

    pub fn for_user(user: &User, now: u64) -> (c: Claims)
        requires
            now + TOKEN_LIFETIME <= u64::MAX,
        ensures
            c == Claims::spec_for_user(user@, now),
    {
        Claims { sub: user.uuid, tokenid: user.tokenid, iat: now, exp: now + TOKEN_LIFETIME }
    }

    /// Whether these claims stand at `now` against the live user record:
    /// not yet expired, the right subject, and the session epoch still the
    /// user's current one.
    pub open spec fn spec_accepts(self, now: u64, u: UserView) -> bool {
        &&& now <= self.exp
        &&& u.uuid == self.sub
        &&& u.tokenid == self.tokenid
    }

    /// Validates the claims against the user record the subject id named
    /// (or against no record, when the store had none) and returns the user
    /// when the token still stands. A missing user, a stale session epoch
    /// and an expired token are all the same `None`: the caller never
    /// learns which.
    pub fn validate_claims(&self, now: u64, user: Option<User>) -> (r: Option<User>)
        ensures
            match r {
                Some(u) => user matches Some(u0) && u0@ == u@ && self.spec_accepts(now, u@),
                None => !(user matches Some(u0) && self.spec_accepts(now, u0@)),
            },
    {
        if self.exp < now {
            return None;
        }
        match user {
            Some(u) => {
                if u.uuid == self.sub && u.tokenid == self.tokenid {
                    Some(u)
                } else {
                    None
                }
            },
            None => None,
        }
    }

    /// Issue: sign a fresh token for the user, bound to the user's current
    /// session epoch. `None` only when the clock stands past the largest
    /// representable instant or the signer refuses.
    pub fn generate_jwt(jwt_secret: &str, user: &User) -> (r: Option<String>)
        ensures
            r matches Some(t) ==> exists|now: u64|
                now + TOKEN_LIFETIME <= u64::MAX && t@ == #[trigger] token_of(
                    user@.uuid,
                    user@.tokenid,
                    now,
                    (now + TOKEN_LIFETIME) as u64,
                    jwt_secret@,
                ),
    {
        let now = current_time();
        if now > u64::MAX - TOKEN_LIFETIME {
            return None;
        }
        let claims = Claims::for_user(user, now);
        encode_claims(&claims, jwt_secret)
    }
}

/// Revocation: a token issued before a password change fails validation
/// after it. Once the user's session epoch has rotated to a value other
/// than the one in the claims, the claims are accepted at no instant.
/// (The fresh epoch is drawn at random; the one draw that repeats the old
/// epoch is left out here.)
pub proof fn lemma_stale_epoch_rejected(c: Claims, u_after: UserView, now: u64)
    requires
        c.tokenid != u_after.tokenid,
    ensures
        !c.spec_accepts(now, u_after),
{
}

/// A token issued against the user's current epoch is accepted from its
/// issue to its expiry.
pub proof fn lemma_fresh_token_accepted(u: UserView, issued: u64, now: u64)
    requires
        issued + TOKEN_LIFETIME <= u64::MAX,
        issued <= now <= issued + TOKEN_LIFETIME,
    ensures
        Claims::spec_for_user(u, issued).spec_accepts(now, u),
{
}

} // verus!
