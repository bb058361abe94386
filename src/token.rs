use vstd::prelude::*;
use hmac::Mac;
use jwt::{SignWithKey, VerifyWithKey};

verus! {

/// The claim bound into a token: who it is for and when it stops being valid
/// (epoch seconds).
pub struct Claim {
    pub id: String,
    pub phone: String,
    pub expiration: i64,
}

/// The HS256 token that signing the claim `(id, phone, expiration)` with
/// `key` yields.
pub uninterp spec fn jwt_token_of(key: Seq<char>, id: Seq<char>, phone: Seq<char>, expiration: i64) -> Seq<char>;

/// The claim `(id, phone, expiration)` carried by `token`, when its HS256
/// signature checks out under `key` and its parts decode; `None` otherwise.
pub uninterp spec fn jwt_claims_of(token: Seq<char>, key: Seq<char>) -> Option<(Seq<char>, Seq<char>, i64)>;

/// Relies on hmac's `Hmac::<Sha256>::new_from_slice`, which accepts a key
/// of any length, and jwt's `SignWithKey`: the header names the key's own
/// algorithm and a tuple of strings and an integer always serializes, so
/// signing does not fail. The token is `header.claims.signature`, and
/// checking it with the same key gives the claim back.
#[verifier::external_body]
fn jwt_sign(claim: &Claim, key: &str) -> (r: String)
    ensures
        r@ == jwt_token_of(key@, claim.id@, claim.phone@, claim.expiration),
        jwt_claims_of(r@, key@) == Some((claim.id@, claim.phone@, claim.expiration)),
{
    let mac = hmac::Hmac::<sha2::Sha256>::new_from_slice(key.as_bytes()).unwrap();
    (claim.id.clone(), claim.phone.clone(), claim.expiration).sign_with_key(&mac).unwrap()
}

/// Relies on hmac's `Hmac::<Sha256>::new_from_slice` and jwt's
/// `VerifyWithKey`: the claim comes back only when the signature checks out.
#[verifier::external_body]
fn jwt_verify(token: &str, key: &str) -> (r: Option<Claim>)
    ensures
        r is None ==> jwt_claims_of(token@, key@) is None,
        r matches Some(c) ==> jwt_claims_of(token@, key@) == Some((c.id@, c.phone@, c.expiration)),
{
    let mac = match hmac::Hmac::<sha2::Sha256>::new_from_slice(key.as_bytes()) {
        Ok(m) => m,
        Err(_) => return None,
    };
    let decoded: Result<(String, String, i64), jwt::Error> = token.verify_with_key(&mac);
    decoded.ok().map(|(id, phone, expiration)| Claim { id, phone, expiration })
}

/// `token` is the token signed with `key` for `(id, phone, expiration)`.
pub open spec fn signed_by(token: Seq<char>, key: Seq<char>, id: Seq<char>, phone: Seq<char>, expiration: i64) -> bool {
    &&& token == jwt_token_of(key, id, phone, expiration)
    &&& jwt_claims_of(token, key) == Some((id, phone, expiration))
}

/// A token is accepted at `now` when it is authentic under `key` and its
/// claim expires strictly after `now`.
pub open spec fn token_accepted(token: Seq<char>, key: Seq<char>, now: i64) -> bool {
    match jwt_claims_of(token, key) {
        Some(c) => c.2 > now,
        None => false,
    }
}

/// Signs a token for `(id, phone)` that expires `validity` seconds after `now`.
pub fn sign_jwt(id: &str, phone: &str, validity: i64, key: &str, now: i64) -> (r: String)
    requires
        i64::MIN <= now + validity <= i64::MAX,
    ensures
        signed_by(r@, key@, id@, phone@, (now + validity) as i64),
{
    let claim = Claim { id: String::from_str(id), phone: String::from_str(phone), expiration: now + validity };
    jwt_sign(&claim, key)
}

/// Checks a token's signature under `key`, then that it has not expired at `now`.
pub fn verify_jwt(token: &str, key: &str, now: i64) -> (r: bool)
    ensures
        r == token_accepted(token@, key@, now),
{
    match jwt_verify(token, key) {
        Some(c) => c.expiration > now,
        None => false,
    }
}

/// Returns the claim of a token that is authentic under `key` and unexpired at `now`.
pub fn decode_jwt(token: &str, key: &str, now: i64) -> (r: Option<Claim>)
    ensures
        r is Some <==> token_accepted(token@, key@, now),
        r matches Some(c) ==> jwt_claims_of(token@, key@) == Some((c.id@, c.phone@, c.expiration)),
{
    match jwt_verify(token, key) {
        Some(c) => {
            if c.expiration > now {
                Some(c)
            } else {
                None
            }
        },
        None => None,
    }
}

/// A token checked with the key it was signed with, at the moment of
/// signing, is accepted whenever its validity is positive.
pub proof fn lemma_sign_then_verify(token: Seq<char>, key: Seq<char>, id: Seq<char>, phone: Seq<char>, validity: i64, signed_at: i64)
    requires
        validity > 0,
        i64::MIN <= signed_at + validity <= i64::MAX,
        signed_by(token, key, id, phone, (signed_at + validity) as i64),
    ensures
        token_accepted(token, key, signed_at),
{
}

/// A signed token is rejected at every moment past its signing time plus its validity.
pub proof fn lemma_expired_rejected(token: Seq<char>, key: Seq<char>, id: Seq<char>, phone: Seq<char>, validity: i64, signed_at: i64, now: i64)
    requires
        i64::MIN <= signed_at + validity <= i64::MAX,
        signed_by(token, key, id, phone, (signed_at + validity) as i64),
        now > signed_at + validity,
    ensures
        !token_accepted(token, key, now),
{
}

/// Once rejected, a token stays rejected: acceptance at a later moment
/// implies acceptance at every earlier one.
pub proof fn lemma_no_unexpiry(token: Seq<char>, key: Seq<char>, earlier: i64, later: i64)
    requires
        earlier <= later,
        !token_accepted(token, key, earlier),
    ensures
        !token_accepted(token, key, later),
{
}

} // verus!
