//! The session token issuer: signed, time-bounded claims that bind a user to
//! a device.
//!
//! A token is a JSON Web Token signed with HMAC-SHA256 under the issuer's
//! secret. Access tokens live for minutes, refresh tokens for weeks; the two
//! are told apart by their kind, so that one cannot stand in for the other.

use vstd::prelude::*;
use vstd::string::*;
use jsonwebtoken::Algorithm;
use jsonwebtoken::DecodingKey;
use jsonwebtoken::EncodingKey;
use jsonwebtoken::Header;
use jsonwebtoken::Validation;
use serde_json::Value;
use crate::clock::deadline;
use crate::clock::deadline_after;
use crate::clock::unix_now;
use crate::ident::hyphenated;
use crate::ident::uuid_text;
use crate::text::text_equal;

verus! {

/// Seconds for which an access token is valid: 15 minutes.
pub const ACCESS_LIFETIME: u32 = 15 * 60;

/// Seconds for which a refresh token is valid: 30 days.
pub const REFRESH_LIFETIME: u32 = 30 * 24 * 60 * 60;

/// What a token may be used for.
#[derive(Debug, Clone, Copy, PartialEq, Eq, Structural)]
pub enum TokenKind {
    /// Authorizes requests.
    Access,
    /// Obtains new access tokens.
    Refresh,
}

impl TokenKind {
    /// The name of the kind in a token's claims.
    pub open spec fn text(self) -> Seq<char> {
        match self {
            TokenKind::Access => "access"@,
            TokenKind::Refresh => "refresh"@,
        }
    }

    /// Seconds for which a token of the kind is valid.
    pub open spec fn lifetime_of(self) -> u32 {
        match self {
            TokenKind::Access => ACCESS_LIFETIME,
            TokenKind::Refresh => REFRESH_LIFETIME,
        }
    }

    /// The name of the kind in a token's claims.
    pub fn as_str(self) -> (r: &'static str)
        ensures
            r@ == self.text(),
    {
        match self {
            TokenKind::Access => "access",
            TokenKind::Refresh => "refresh",
        }
    }

    /// Seconds for which a token of the kind is valid.
    pub fn lifetime(self) -> (r: u32)
        ensures
            r == self.lifetime_of(),
    {
        match self {
            TokenKind::Access => ACCESS_LIFETIME,
            TokenKind::Refresh => REFRESH_LIFETIME,
        }
    }
}

/// The two kinds have different names.
pub proof fn lemma_kinds_differ()
    ensures
        TokenKind::Access.text() != TokenKind::Refresh.text(),
{
    reveal_strlit("access");
    reveal_strlit("refresh");
    assert(TokenKind::Access.text().len() != TokenKind::Refresh.text().len());
}

/// Why a token was not accepted.
#[derive(Debug, Clone, Copy, PartialEq, Eq, Structural)]
pub enum TokenError {
    /// The text is no token, its signature does not verify under the secret,
    /// or its claims are not those of this issuer.
    Invalid,
    /// The token is of the other kind.
    WrongKind,
    /// The token's expiry has passed.
    Expired,
}

/// The claims of a token.
#[derive(Debug, Clone, PartialEq, Eq)]
pub struct Claims {
    /// The user, as the hyphenated text of the user id.
    pub sub: String,
    pub device_id: i64,
    /// The first second at which the token is no longer accepted.
    pub exp: i64,
    /// The second at which the token was issued.
    pub iat: i64,
    /// `access` or `refresh`.
    pub token_type: String,
}

/// Claims as mathematical values.
#[verifier::ext_equal]
pub struct ClaimsView {
    pub sub: Seq<char>,
    pub device_id: i64,
    pub exp: i64,
    pub iat: i64,
    pub token_type: Seq<char>,
}

impl View for Claims {
    type V = ClaimsView;

    open spec fn view(&self) -> ClaimsView {
        ClaimsView {
            sub: self.sub@,
            device_id: self.device_id,
            exp: self.exp,
            iat: self.iat,
            token_type: self.token_type@,
        }
    }
}

/// The claims of a token of a kind, issued at `now` for a user's device.
pub open spec fn claims_for(user_id: u128, device_id: i64, kind: TokenKind, now: i64) -> ClaimsView {
    ClaimsView {
        sub: hyphenated(user_id),
        device_id,
        exp: deadline_after(now, kind.lifetime_of()),
        iat: now,
        token_type: kind.text(),
    }
}

/// Whether claims are accepted at `now` as those of a token of a kind, or
/// why they are not. A token of the other kind is refused whether or not it
/// has run out.
pub open spec fn checked(claims: ClaimsView, kind: TokenKind, now: i64) -> Result<(), TokenError> {
    if claims.token_type != kind.text() {
        Err(TokenError::WrongKind)
    } else if now >= claims.exp {
        Err(TokenError::Expired)
    } else {
        Ok(())
    }
}

/// The token that carries the given claims under a secret: header and claims
/// as JSON, and their HMAC-SHA256 signature, each in URL-safe base64.
pub uninterp spec fn hs256_token(
    sub: Seq<char>,
    device_id: i64,
    exp: i64,
    iat: i64,
    token_type: Seq<char>,
    secret: Seq<char>,
) -> Seq<char>;

/// The claims that a text carries as a token under a secret, if it is one.
pub uninterp spec fn hs256_claims(token: Seq<char>, secret: Seq<char>) -> Option<ClaimsView>;

/// What optional claims hold.
pub open spec fn claims_of(c: Option<Claims>) -> Option<ClaimsView> {
    match c {
        Some(c) => Some(c@),
        None => None,
    }
}

/// Signs claims: `jsonwebtoken::encode` with the default header (HS256), the
/// claims as a JSON object whose members stand in the order of the
/// arguments, and `EncodingKey::from_secret` of the secret's bytes. The token
/// is a function of the arguments alone. `encode` fails only where the key
/// does not suit the header's algorithm or the claims cannot be written as
/// JSON, and neither is so here.
#[verifier::external_body]
fn encode_hs256(
    sub: &str,
    device_id: i64,
    exp: i64,
    iat: i64,
    token_type: &str,
    secret: &str,
) -> (r: String)
    ensures
        r@ == hs256_token(sub@, device_id, exp, iat, token_type@, secret@),
{
    let mut claims = serde_json::Map::new();
    claims.insert("sub".to_string(), Value::from(sub));
    claims.insert("device_id".to_string(), Value::from(device_id));
    claims.insert("exp".to_string(), Value::from(exp));
    claims.insert("iat".to_string(), Value::from(iat));
    claims.insert("token_type".to_string(), Value::from(token_type));
    let key = EncodingKey::from_secret(secret.as_bytes());
    jsonwebtoken::encode(&Header::default(), &claims, &key).unwrap()
}

/// Reads a token: `jsonwebtoken::decode` under `DecodingKey::from_secret` of
/// the secret's bytes, with a validation that accepts HS256 alone, asks for
/// no claim and does not look at the clock. `None` where `decode` refuses the
/// text or a claim of this issuer is missing or of another type. The answer
/// is a function of token and secret alone.
#[verifier::external_body]
fn decode_hs256(token: &str, secret: &str) -> (r: Option<Claims>)
    ensures
        claims_of(r) == hs256_claims(token@, secret@),
{
    let mut rules = Validation::new(Algorithm::HS256);
    rules.validate_exp = false;
    rules.required_spec_claims.clear();
    let key = DecodingKey::from_secret(secret.as_bytes());
    let body = jsonwebtoken::decode::<Value>(token, &key, &rules).ok()?.claims;
    Some(Claims {
        sub: body.get("sub")?.as_str()?.to_string(),
        device_id: body.get("device_id")?.as_i64()?,
        exp: body.get("exp")?.as_i64()?,
        iat: body.get("iat")?.as_i64()?,
        token_type: body.get("token_type")?.as_str()?.to_string(),
    })
}

/// The claims of a token of a kind, issued at `now` for a user's device.
pub fn issue_claims(user_id: u128, device_id: i64, kind: TokenKind, now: i64) -> (r: Claims)
    ensures
        r@ == claims_for(user_id, device_id, kind, now),
{
    Claims {
        sub: uuid_text(user_id),
        device_id,
        exp: deadline(now, kind.lifetime()),
        iat: now,
        token_type: String::from_str(kind.as_str()),
    }
}

/// Whether claims are accepted at `now` as those of a token of a kind.
pub fn check_claims(claims: &Claims, kind: TokenKind, now: i64) -> (r: Result<(), TokenError>)
    ensures
        r == checked(claims@, kind, now),
{
    if !text_equal(claims.token_type.as_str(), kind.as_str()) {
        Err(TokenError::WrongKind)
    } else if now >= claims.exp {
        Err(TokenError::Expired)
    } else {
        Ok(())
    }
}

/// The token that carries claims under a secret.
pub open spec fn signed(claims: ClaimsView, secret: Seq<char>) -> Seq<char> {
    hs256_token(
        claims.sub,
        claims.device_id,
        claims.exp,
        claims.iat,
        claims.token_type,
        secret,
    )
}

/// What the check of a token gives once its text has been read: a text that
/// is no token under the secret is invalid; claims are held to `checked`.
pub open spec fn verified(read: Option<ClaimsView>, kind: TokenKind, now: i64) -> Result<
    ClaimsView,
    TokenError,
> {
    match read {
        None => Err(TokenError::Invalid),
        Some(claims) => match checked(claims, kind, now) {
            Ok(()) => Ok(claims),
            Err(e) => Err(e),
        },
    }
}

/// What a checked token holds, or why it was refused.
pub open spec fn outcome_of(r: Result<Claims, TokenError>) -> Result<ClaimsView, TokenError> {
    match r {
        Ok(c) => Ok(c@),
        Err(e) => Err(e),
    }
}

/// Checks claims that were read from a token, if any were.
pub fn verify_claims(read: Option<Claims>, kind: TokenKind, now: i64) -> (r: Result<
    Claims,
    TokenError,
>)
    ensures
        outcome_of(r) == verified(claims_of(read), kind, now),
{
    match read {
        None => Err(TokenError::Invalid),
        Some(claims) => match check_claims(&claims, kind, now) {
            Ok(()) => Ok(claims),
            Err(e) => Err(e),
        },
    }
}

/// Mints and checks tokens under one secret. The secret is set when the
/// issuer is made and never changes.
pub struct TokenIssuer {
    secret: String,
}

impl TokenIssuer {
    /// The secret under which the issuer signs.
    pub closed spec fn secret(&self) -> Seq<char> {
        self.secret@
    }

    /// An issuer that signs under `secret`.
    pub fn new(secret: String) -> (r: TokenIssuer)
        ensures
            r.secret() == secret@,
    {
        TokenIssuer { secret }
    }

    /// Signs claims.
    pub fn sign(&self, claims: &Claims) -> (r: String)
        ensures
            r@ == signed(claims@, self.secret()),
    {
        encode_hs256(
            claims.sub.as_str(),
            claims.device_id,
            claims.exp,
            claims.iat,
            claims.token_type.as_str(),
            self.secret.as_str(),
        )
    }

    /// The token of a kind, issued at `now` for a user's device.
    pub fn issue(&self, user_id: u128, device_id: i64, kind: TokenKind, now: i64) -> (r: String)
        ensures
            r@ == signed(claims_for(user_id, device_id, kind, now), self.secret()),
    {
        let claims = issue_claims(user_id, device_id, kind, now);
        self.sign(&claims)
    }

    /// The token of a kind, issued at the current second for a user's
    /// device: the token of `issue` for some reading of the clock.
    pub fn mint(&self, user_id: u128, device_id: i64, kind: TokenKind) -> (r: String)
        ensures
            exists|now: i64|
                now >= 0 && r@ == signed(
                    #[trigger] claims_for(user_id, device_id, kind, now),
                    self.secret(),
                ),
    {
        let now = unix_now();
        self.issue(user_id, device_id, kind, now)
    }

    /// Checks a token at `now` as one of a kind: its signature must verify
    /// under the issuer's secret, its kind must be the one asked for, and its
    /// expiry must not have passed.
    pub fn verify(&self, token: &str, kind: TokenKind, now: i64) -> (r: Result<Claims, TokenError>)
        ensures
            outcome_of(r) == verified(hs256_claims(token@, self.secret()), kind, now),
    {
        verify_claims(decode_hs256(token, self.secret.as_str()), kind, now)
    }
}

/// The claims issued at `now` are accepted at `now` and until their expiry,
/// which comes one lifetime after `now`; from the expiry on they are
/// refused as expired. Asked for as the other kind they are refused at any
/// time. The last representable second is left out: claims issued then have
/// run out at once.
pub proof fn issued_claims_live_one_lifetime(
    user_id: u128,
    device_id: i64,
    kind: TokenKind,
    other: TokenKind,
    now: i64,
    at: i64,
)
    requires
        now < i64::MAX,
        other != kind,
    ensures
        ({
            let claims = claims_for(user_id, device_id, kind, now);
            &&& checked(claims, kind, now) is Ok
            &&& now + kind.lifetime_of() <= i64::MAX ==> claims.exp == now + kind.lifetime_of()
            &&& now <= at < claims.exp ==> checked(claims, kind, at) is Ok
            &&& at >= claims.exp ==> checked(claims, kind, at) == Err::<(), TokenError>(
                TokenError::Expired,
            )
            &&& checked(claims, other, at) == Err::<(), TokenError>(TokenError::WrongKind)
            &&& TokenKind::Access.lifetime_of() == 15 * 60
            &&& TokenKind::Refresh.lifetime_of() == 30 * 86_400
        }),
{
    lemma_kinds_differ();
}

} // verus!
