use vstd::prelude::*;

verus! {

/// How long an issued token stays valid, in seconds.
pub const TOKEN_LIFETIME_SECS: u64 = 300;

/// The compact HS256 token that signs the claims `{exp, iat, sub}` with
/// the bytes of `secret`.
pub uninterp spec fn hs256_token(secret: Seq<char>, sub: Seq<char>, iat: int, exp: int) -> Seq<char>;

/// `s` is the subject of every token equal to `token` that `secret` signs.
pub open spec fn subject_of_token(secret: Seq<char>, token: Seq<char>, s: Seq<char>) -> bool {
    forall|sub: Seq<char>, iat: int, exp: int|
        #[trigger] hs256_token(secret, sub, iat, exp) == token ==> sub == s
}

pub open spec fn dot_count(s: Seq<char>) -> nat {
    s.filter(|c: char| c == '.').len()
}

/// A character of the compact form: the base64url alphabet (no padding)
/// and the `.` that separates the three parts.
pub open spec fn compact_char(c: char) -> bool {
    ('A' <= c && c <= 'Z') || ('a' <= c && c <= 'z') || ('0' <= c && c <= '9') || c == '-' || c
        == '_' || c == '.'
}

/// Three `.`-separated parts, each written in the base64url alphabet.
pub open spec fn compact_shape(s: Seq<char>) -> bool {
    dot_count(s) == 2 && forall|i: int| 0 <= i < s.len() ==> compact_char(#[trigger] s[i])
}

/// The error type of `jsonwebtoken`, carried through opaque.
#[verifier::external_type_specification]
#[verifier::external_body]
pub struct ExJwtError(jsonwebtoken::errors::Error);

/// Relies on `jsonwebtoken::encode` with `Header::default()` (HS256) and
/// `EncodingKey::from_secret` over the secret's bytes, on the claims
/// `exp`, `iat` and `sub`. For an HMAC key and an HS256 header `encode`
/// cannot fail: the key family matches, a map of strings and integers
/// always serializes, and `crypto::sign` returns `Ok` for HS256.
#[verifier::external_body]
fn encode_token(secret: &str, sub: &str, iat: u64, exp: u64) -> (r: Result<String, jsonwebtoken::errors::Error>)
    ensures
        r is Ok,
        r->Ok_0@ == hs256_token(secret@, sub@, iat as int, exp as int),
{
    let mut claims = serde_json::Map::new();
    claims.insert("exp".to_string(), exp.into());
    claims.insert("iat".to_string(), iat.into());
    claims.insert("sub".to_string(), sub.into());
    let key = jsonwebtoken::EncodingKey::from_secret(secret.as_bytes());
    jsonwebtoken::encode(&jsonwebtoken::Header::default(), &claims, &key)
}

/// Relies on `jsonwebtoken::decode` with `Validation::default()` (HS256
/// signature, `exp` required) and no leeway, so a token past its `exp`
/// fails; the `sub` claim is read as a string. `decode` splits the token
/// at its last two `.` and fails when there are fewer; the header and the
/// payload must decode as unpadded base64url (so hold no further `.`),
/// and the signature must equal the unpadded base64url HMAC. A token it
/// accepts carries the claims it was encoded with.
#[verifier::external_body]
fn decode_subject(secret: &str, token: &str) -> (r: Result<Option<String>, jsonwebtoken::errors::Error>)
    ensures
        dot_count(token@) < 2 ==> r is Err,
        r is Ok ==> compact_shape(token@),
        r matches Ok(Some(s)) ==> subject_of_token(secret@, token@, s@),
{
    let key = jsonwebtoken::DecodingKey::from_secret(secret.as_bytes());
    let mut validation = jsonwebtoken::Validation::default();
    validation.leeway = 0;
    let data = jsonwebtoken::decode::<serde_json::Map<String, serde_json::Value>>(token, &key, &validation)?;
    Ok(data.claims.get("sub").and_then(|v| v.as_str()).map(|s| s.to_string()))
}

/// Relies on `chrono::Utc::now` and `timestamp`: the current time in
/// seconds since the Unix epoch. Nothing is promised of the value.
#[verifier::external_body]
fn now_timestamp() -> (r: i64) {
    chrono::Utc::now().timestamp()
}

/// Why a token could not be issued or accepted.
#[derive(Debug, Clone, Copy, PartialEq, Eq, Structural)]
pub enum TokenError {
    /// The clock reads a time that no token can carry.
    ClockOutOfRange,
    /// The signature, the structure or the expiry does not check out.
    InvalidToken,
}

/// Issues and verifies signed, time-limited bearer tokens.
pub struct JwtHelper {
    secret: String,
}

impl JwtHelper {
    /// The signing secret.
    pub closed spec fn key(&self) -> Seq<char> {
        self.secret@
    }

    pub fn new(secret: String) -> (r: Self)
        ensures
            r.key() == secret@,
    {
        JwtHelper { secret }
    }

    /// Issues a token for `sub` at time `now`, expiring
    /// `TOKEN_LIFETIME_SECS` later.
    pub fn generate_at(&self, sub: String, now: u64) -> (r: Result<String, TokenError>)
        ensures
            now > u64::MAX - TOKEN_LIFETIME_SECS ==> r == Err::<String, TokenError>(
                TokenError::ClockOutOfRange,
            ),
            now <= u64::MAX - TOKEN_LIFETIME_SECS ==> r is Ok,
            r is Ok ==> r->Ok_0@ == hs256_token(
                self.key(),
                sub@,
                now as int,
                now + TOKEN_LIFETIME_SECS,
            ),
    {
        if now > u64::MAX - TOKEN_LIFETIME_SECS {
            return Err(TokenError::ClockOutOfRange);
        }
        Ok(encode_token(self.secret.as_str(), sub.as_str(), now, now + TOKEN_LIFETIME_SECS).unwrap())
    }

    /// Issues a token for `sub`, valid for `TOKEN_LIFETIME_SECS` from now.
    pub fn generate(&self, sub: String) -> (r: Result<String, TokenError>)
        ensures
            r is Err ==> r->Err_0 == TokenError::ClockOutOfRange,
            r is Ok ==> exists|iat: int, exp: int|
                exp == iat + TOKEN_LIFETIME_SECS && r->Ok_0@ == #[trigger] hs256_token(
                    self.key(),
                    sub@,
                    iat,
                    exp,
                ),
    {
        let now = now_timestamp();
        if now < 0 {
            return Err(TokenError::ClockOutOfRange);
        }
        let ghost sub_v = sub@;
        let r = self.generate_at(sub, now as u64);
        proof {
            if r is Ok {
                let iat = now as int;
                let exp = iat + TOKEN_LIFETIME_SECS;
                assert(r->Ok_0@ == hs256_token(self.key(), sub_v, iat, exp));
            }
        }
        r
    }

    /// The subject of `token` when its signature, structure and expiry
    /// check out; `InvalidToken` otherwise.
    pub fn validate(&self, token: &str) -> (r: Result<String, TokenError>)
        ensures
            r is Err ==> r->Err_0 == TokenError::InvalidToken,
            dot_count(token@) < 2 ==> r is Err,
            !compact_shape(token@) ==> r is Err,
            r is Ok ==> subject_of_token(self.key(), token@, r->Ok_0@),
    {
        match decode_subject(self.secret.as_str(), token) {
            Ok(Some(s)) => Ok(s),
            _ => Err(TokenError::InvalidToken),
        }
    }
}

/// A token issued for `sub` that verification accepts yields `sub` again.
pub proof fn lemma_verify_issued_token(
    secret: Seq<char>,
    sub: Seq<char>,
    iat: int,
    exp: int,
    verified: Seq<char>,
)
    requires
        subject_of_token(secret, hs256_token(secret, sub, iat, exp), verified),
    ensures
        verified == sub,
{
}

} // verus!
