//! Tokens and the authentication of requests.
use vstd::prelude::*;
use vstd::string::StrSliceExecFns;
use jsonwebtoken::{DecodingKey, EncodingKey};

use crate::time::{checked_add_seconds, now, whole_seconds, Timestamp, MAX_DELTA_SECS};

verus! {

/// The claims of a JSON web token.
#[derive(Debug, Clone)]
pub struct Claims {
    /// Subject: the user's email.
    pub sub: String,
    /// Issued at (seconds since the epoch).
    pub iat: i64,
    /// Not before (seconds since the epoch).
    pub nbf: i64,
    /// Expiration (seconds since the epoch).
    pub exp: i64,
}

/// The claims for `user_id` issued at `now` and valid for `lifetime_in_secs` seconds:
/// issued and valid from the whole second of `now`, expiring `lifetime_in_secs`
/// seconds later; `None` where the expiry leaves the range of representable instants.
pub open spec fn claims_at(user_id: String, lifetime_in_secs: i64, now: Timestamp) -> Option<Claims> {
    if crate::time::MIN_UTC_MICROS <= now.micros + lifetime_in_secs * 1000000 <= crate::time::MAX_UTC_MICROS {
        let iat = whole_seconds(now.micros as int);
        Some(Claims { sub: user_id, iat: iat as i64, nbf: iat as i64, exp: (iat + lifetime_in_secs) as i64 })
    } else {
        None
    }
}

impl Claims {
    /// The claims for `user_id` issued at `now`, valid for `lifetime_in_secs` seconds;
    /// `None` where the expiry leaves the range of representable instants.
    pub fn issued_at(user_id: String, lifetime_in_secs: i64, now: Timestamp) -> (c: Option<Claims>)
        requires
            now.wf(),
            -MAX_DELTA_SECS <= lifetime_in_secs <= MAX_DELTA_SECS,
        ensures
            c is Some <==> crate::time::MIN_UTC_MICROS <= now.micros + lifetime_in_secs * 1000000
                <= crate::time::MAX_UTC_MICROS,
            c matches Some(c) ==> {
                &&& c.sub == user_id
                &&& c.iat == whole_seconds(now.micros as int)
                &&& c.nbf == c.iat
                &&& c.exp == c.iat + lifetime_in_secs
            },
            c == claims_at(user_id, lifetime_in_secs, now),
    {
        let iat: i64 = if now.micros >= 0 {
            now.micros / 1000000
        } else {
            let n: i64 = -now.micros - 1;
            -(n / 1000000) - 1
        };
        assert(iat as int == now.micros as int / 1000000int) by (nonlinear_arith)
            requires
                now.micros >= 0 ==> iat as int == now.micros as int / 1000000int,
                now.micros < 0 ==> iat as int == -((-now.micros - 1) as int / 1000000int) - 1,
        ;
        match checked_add_seconds(now.micros, lifetime_in_secs) {
            Some(exp) => Some(Claims { sub: user_id, iat, nbf: iat, exp }),
            None => None,
        }
    }

    /// The claims for `user_id` issued now, valid for `lifetime_in_secs` seconds;
    /// `None` where the expiry leaves the range of representable instants. The
    /// result is `claims_at` of the current instant, which the clock decides: so a
    /// token that expires when it is issued is always made.
    pub fn new(user_id: String, lifetime_in_secs: i64) -> (c: Option<Claims>)
        requires
            -MAX_DELTA_SECS <= lifetime_in_secs <= MAX_DELTA_SECS,
        ensures
            exists|t: Timestamp| t.wf() && c == #[trigger] claims_at(user_id, lifetime_in_secs, t),
            c matches Some(c) ==> {
                &&& c.sub == user_id
                &&& c.nbf == c.iat
                &&& c.exp == c.iat + lifetime_in_secs
            },
            lifetime_in_secs == 0 ==> c is Some,
    {
        let t = now();
        let c = Claims::issued_at(user_id, lifetime_in_secs, t);
        assert(t.wf() && c == claims_at(user_id, lifetime_in_secs, t));
        c
    }
}

/// A request was made without valid credentials.
#[derive(Debug, Clone, Copy, PartialEq, Eq, Structural)]
pub struct Unauthorized;

impl Unauthorized {
    /// The message that the client receives.
    pub fn message(&self) -> (m: String)
        ensures
            m@ == "Unauthorized"@,
    {
        String::from_str("Unauthorized")
    }
}

/// The authentication of a request, passed to the GraphQL resolvers.
#[derive(Debug, Clone)]
pub struct AuthContext {
    pub claims: Option<Claims>,
}

impl AuthContext {
    /// The claims of the request, or `Unauthorized` for an anonymous request.
    pub fn require_auth(&self) -> (r: Result<&Claims, Unauthorized>)
        ensures
            self.claims is Some <==> r is Ok,
            r matches Ok(c) ==> *c == self.claims->0,
    {
        match &self.claims {
            Some(c) => Ok(c),
            None => Err(Unauthorized),
        }
    }
}

/// The prefix of an `Authorization` header that carries a bearer token.
pub open spec fn bearer_prefix() -> Seq<char> {
    "Bearer "@
}

/// The token of an `Authorization` header value: what follows `Bearer `, if the value
/// starts with it.
pub open spec fn bearer_token_of(header: Seq<char>) -> Option<Seq<char>> {
    if header.len() >= 7 && header.subrange(0, 7) == bearer_prefix() {
        Some(header.subrange(7, header.len() as int))
    } else {
        None
    }
}

/// The token of an `Authorization` header value (`Bearer <token>`).
pub fn bearer_token(header: &str) -> (t: Option<String>)
    ensures
        t is Some <==> bearer_token_of(header@) is Some,
        t matches Some(t) ==> t@ == bearer_token_of(header@)->0,
{
    proof {
        reveal_strlit("Bearer ");
    }
    let n = header.unicode_len();
    if n < 7 {
        return None;
    }
    let prefix = String::from_str(header.substring_char(0, 7));
    let expected = String::from_str("Bearer ");
    let same = prefix == expected;
    if same {
        Some(String::from_str(header.substring_char(7, n)))
    } else {
        None
    }
}


#[verifier::external_type_specification]
#[verifier::external_body]
pub struct ExEncodingKey(jsonwebtoken::EncodingKey);

#[verifier::external_type_specification]
#[verifier::external_body]
pub struct ExDecodingKey(jsonwebtoken::DecodingKey);

/// Whether `jsonwebtoken::EncodingKey::from_rsa_pem` accepts the bytes: a PEM block
/// with an RSA key that it can read.
pub uninterp spec fn rsa_private_pem_accepted(pem: Seq<u8>) -> bool;

/// Whether `jsonwebtoken::DecodingKey::from_rsa_pem` accepts the bytes: a PEM block
/// with an RSA key that it can read.
pub uninterp spec fn rsa_public_pem_accepted(pem: Seq<u8>) -> bool;

/// The key that signs tokens, read from a PEM-encoded RSA private key.
///
/// Trusted: calls `jsonwebtoken::EncodingKey::from_rsa_pem`, which parses the PEM
/// block and its DER content and depends on the bytes alone; its error is kept as
/// text. Whether it succeeds is named, not computed here.
#[verifier::external_body]
fn encoding_key_from_rsa_pem(pem: &[u8]) -> (r: Result<EncodingKey, String>)
    ensures
        (r is Ok) == rsa_private_pem_accepted(pem@),
{
    match EncodingKey::from_rsa_pem(pem) {
        Ok(k) => Ok(k),
        Err(e) => Err(e.to_string()),
    }
}

/// The key that verifies tokens, read from a PEM-encoded RSA public key.
///
/// Trusted: calls `jsonwebtoken::DecodingKey::from_rsa_pem`, which parses the PEM
/// block and its DER content and depends on the bytes alone; its error is kept as
/// text. Whether it succeeds is named, not computed here.
#[verifier::external_body]
fn decoding_key_from_rsa_pem(pem: &[u8]) -> (r: Result<DecodingKey, String>)
    ensures
        (r is Ok) == rsa_public_pem_accepted(pem@),
{
    match DecodingKey::from_rsa_pem(pem) {
        Ok(k) => Ok(k),
        Err(e) => Err(e.to_string()),
    }
}

/// The RSA key pair that signs and verifies tokens.
pub struct JwtKeyPair {
    /// The private key, used to create signatures.
    pub encoding_key: EncodingKey,
    /// The public key, used to verify signatures.
    pub decoding_key: DecodingKey,
}

/// Why the key pair could not be made (with the key reader's message).
#[derive(Debug)]
pub enum JwtKeyError {
    /// The private key could not be read.
    PrivateKey(String),
    /// The public key could not be read.
    PublicKey(String),
}

impl JwtKeyError {
    /// What failed, for the log.
    pub fn context(&self) -> (m: String)
        ensures
            self is PrivateKey ==> m@ == "Failed to create encoding key from private key"@,
            self is PublicKey ==> m@ == "Failed to create decoding key from public key"@,
    {
        match self {
            JwtKeyError::PrivateKey(_) => String::from_str("Failed to create encoding key from private key"),
            JwtKeyError::PublicKey(_) => String::from_str("Failed to create decoding key from public key"),
        }
    }
}

/// The key pair from the PEM contents of the two key files: the private key is read
/// first, so its failure is the one reported where both fail.
pub fn jwt_keypair(private_pem: &[u8], public_pem: &[u8]) -> (r: Result<JwtKeyPair, JwtKeyError>)
    ensures
        (r is Ok) == (rsa_private_pem_accepted(private_pem@) && rsa_public_pem_accepted(public_pem@)),
        !rsa_private_pem_accepted(private_pem@) ==> r matches Err(JwtKeyError::PrivateKey(_)),
        rsa_private_pem_accepted(private_pem@) && !rsa_public_pem_accepted(public_pem@) ==> r matches Err(
            JwtKeyError::PublicKey(_),
        ),
{
    let encoding_key = match encoding_key_from_rsa_pem(private_pem) {
        Ok(k) => k,
        Err(e) => return Err(JwtKeyError::PrivateKey(e)),
    };
    let decoding_key = match decoding_key_from_rsa_pem(public_pem) {
        Ok(k) => k,
        Err(e) => return Err(JwtKeyError::PublicKey(e)),
    };
    Ok(JwtKeyPair { encoding_key, decoding_key })
}

} // verus!
