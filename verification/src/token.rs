//! Issuing and validating session tokens.
//!
//! A token is a compact HS256-signed record of [`Claims`]. Signing, signature
//! checking and the wire encoding are the work of the `jsonwebtoken` crate;
//! what this module decides is which claims are signed, which decoded records
//! count as claims, and when a token has expired.

use vstd::prelude::*;
use crate::claims::{Claims, ClaimsView};
use crate::errors::{AuthError, SigningError};
use crate::wire::{first_segment_bytes, frame, header_segment, lemma_header_segment, segment_bytes, well_framed};

verus! {

#[verifier::external_type_specification]
#[verifier::external_body]
pub struct ExJwtError(jsonwebtoken::errors::Error);

/// Why the decoder refused a token, as far as the validator tells the
/// reasons apart.
#[derive(Clone, Copy, Debug, PartialEq, Eq, Structural)]
pub enum TokenFault {
    /// Not three base64url segments joined by dots.
    InvalidToken,
    /// A segment is not base64url text.
    Base64,
    /// Header or payload is not the expected JSON.
    Json,
    /// A segment does not hold UTF-8 text.
    Utf8,
    /// The payload has no usable `exp`.
    MissingRequiredClaim,
    /// The signature is not the one the secret gives.
    InvalidSignature,
    /// The header names an algorithm other than HS256.
    InvalidAlgorithm,
    /// The decoder itself found the token expired.
    ExpiredSignature,
    /// The header is no JSON object that names an algorithm.
    UnreadableHeader,
    /// Any other refusal.
    Other,
}

/// The names under which a payload holds the four claim fields.
#[derive(Clone, Copy, Debug)]
pub struct ClaimNames {
    pub user_id: &'static str,
    pub username: &'static str,
    pub issued_at: &'static str,
    pub expires_at: &'static str,
}

/// The mathematical content of [`ClaimNames`].
pub struct ClaimNamesView {
    pub user_id: Seq<char>,
    pub username: Seq<char>,
    pub issued_at: Seq<char>,
    pub expires_at: Seq<char>,
}

impl View for ClaimNames {
    type V = ClaimNamesView;

    open spec fn view(&self) -> ClaimNamesView {
        ClaimNamesView {
            user_id: self.user_id@,
            username: self.username@,
            issued_at: self.issued_at@,
            expires_at: self.expires_at@,
        }
    }
}

/// The names on the wire: `user_id`, `username`, `iat` and `exp`.
pub open spec fn wire_names() -> ClaimNamesView {
    ClaimNamesView {
        user_id: "user_id"@,
        username: "username"@,
        issued_at: "iat"@,
        expires_at: "exp"@,
    }
}

/// The names on the wire.
pub fn claim_names() -> (names: ClaimNames)
    ensures
        names@ == wire_names(),
{
    ClaimNames { user_id: "user_id", username: "username", issued_at: "iat", expires_at: "exp" }
}

/// The four claim fields as the decoder found them in a payload: each is
/// `None` where the field is absent or not of the expected JSON type.
#[derive(Debug)]
pub struct RawClaims {
    pub user_id: Option<i64>,
    pub username: Option<String>,
    pub issued_at: Option<u64>,
    pub expires_at: Option<u64>,
}

/// The mathematical content of [`RawClaims`].
pub struct RawClaimsView {
    pub user_id: Option<int>,
    pub username: Option<Seq<char>>,
    pub issued_at: Option<int>,
    pub expires_at: Option<int>,
}

impl View for RawClaims {
    type V = RawClaimsView;

    open spec fn view(&self) -> RawClaimsView {
        RawClaimsView {
            user_id: match self.user_id {
                Some(v) => Some(v as int),
                None => None,
            },
            username: match self.username {
                Some(v) => Some(v@),
                None => None,
            },
            issued_at: match self.issued_at {
                Some(v) => Some(v as int),
                None => None,
            },
            expires_at: match self.expires_at {
                Some(v) => Some(v as int),
                None => None,
            },
        }
    }
}

/// The record that a payload holding exactly these four fields decodes to.
pub open spec fn raw_fields(user_id: int, username: Seq<char>, issued_at: int, expires_at: int)
    -> RawClaimsView {
    RawClaimsView {
        user_id: Some(user_id),
        username: Some(username),
        issued_at: Some(issued_at),
        expires_at: Some(expires_at),
    }
}

/// The record that a payload holding exactly `claims` decodes to.
pub open spec fn raw_of(claims: ClaimsView) -> RawClaimsView {
    RawClaimsView {
        user_id: Some(claims.user_id),
        username: Some(claims.username),
        issued_at: Some(claims.issued_at),
        expires_at: Some(claims.expires_at),
    }
}

/// A decoding that succeeded with `raw`.
pub open spec fn decoded_claims(raw: RawClaimsView) -> Result<RawClaimsView, TokenFault> {
    Ok(raw)
}

/// A decoding that failed with `fault`.
pub open spec fn decoded_fault(fault: TokenFault) -> Result<RawClaimsView, TokenFault> {
    Err(fault)
}

/// What `jsonwebtoken::decode` makes of `token` under the HS256 key `secret`,
/// with expiry checking switched off: the payload's claim fields, read
/// under `names`, or the reason for refusing the token.
pub uninterp spec fn hs256_decode(token: Seq<char>, secret: Seq<u8>, names: ClaimNamesView)
    -> Result<RawClaimsView, TokenFault>;

/// The token that `jsonwebtoken::encode` writes under the HS256 key `secret`
/// for the four claim fields, written under `names`.
pub uninterp spec fn hs256_token(
    user_id: int,
    username: Seq<char>,
    issued_at: int,
    expires_at: int,
    secret: Seq<u8>,
    names: ClaimNamesView,
) -> Seq<char>;

/// What `serde_json` reads out of `bytes` under `key`: the text of that
/// member where the bytes are a JSON object that has it as a string, else
/// nothing.
pub uninterp spec fn json_member_text(bytes: Seq<u8>, key: Seq<char>) -> Option<Seq<char>>;

/// The algorithm that the header of a well-framed token names.
pub open spec fn header_algorithm(token: Seq<char>) -> Option<Seq<char>> {
    json_member_text(segment_bytes(header_segment(token)), "alg"@)
}

/// The one algorithm that tokens are signed with.
pub open spec fn expected_algorithm() -> Seq<char> {
    "HS256"@
}

/// The kind of a `jsonwebtoken` error.
pub uninterp spec fn fault_of(error: jsonwebtoken::errors::Error) -> TokenFault;

/// Calls `jsonwebtoken::decode` with an HS256 validation whose expiry and
/// audience checks are off, so that the result depends on the token and the
/// secret alone and an `aud` claim is no ground for refusal, and reads the
/// four claim fields out of the decoded JSON object under `names`. The
/// decoder itself asks for a numeric member `exp`.
///
/// Trusted: the result is what [`hs256_decode`] names.
#[verifier::external_body]
fn decode_hs256(token: &str, secret: &[u8], names: ClaimNames) -> (r: Result<
    RawClaims,
    jsonwebtoken::errors::Error,
>)
    ensures
        r matches Ok(raw) ==> hs256_decode(token@, secret@, names@) == decoded_claims(raw@),
        r matches Err(e) ==> hs256_decode(token@, secret@, names@) == decoded_fault(fault_of(e)),
{
    let mut validation = jsonwebtoken::Validation::new(jsonwebtoken::Algorithm::HS256);
    validation.validate_exp = false;
    validation.validate_aud = false;
    let key = jsonwebtoken::DecodingKey::from_secret(secret);
    let data = jsonwebtoken::decode::<serde_json::Value>(token, &key, &validation)?;
    Ok(RawClaims {
        user_id: data.claims.get(names.user_id).and_then(serde_json::Value::as_i64),
        username: data.claims.get(names.username).and_then(serde_json::Value::as_str).map(str::to_owned),
        issued_at: data.claims.get(names.issued_at).and_then(serde_json::Value::as_u64),
        expires_at: data.claims.get(names.expires_at).and_then(serde_json::Value::as_u64),
    })
}

/// Calls `jsonwebtoken::errors::Error::kind` and tells its variants apart.
///
/// Trusted: the result is what [`fault_of`] names.
#[verifier::external_body]
fn fault_kind(error: &jsonwebtoken::errors::Error) -> (f: TokenFault)
    ensures
        f == fault_of(*error),
{
    match error.kind() {
        jsonwebtoken::errors::ErrorKind::InvalidToken => TokenFault::InvalidToken,
        jsonwebtoken::errors::ErrorKind::Base64(_) => TokenFault::Base64,
        jsonwebtoken::errors::ErrorKind::Json(_) => TokenFault::Json,
        jsonwebtoken::errors::ErrorKind::Utf8(_) => TokenFault::Utf8,
        jsonwebtoken::errors::ErrorKind::MissingRequiredClaim(_) => TokenFault::MissingRequiredClaim,
        jsonwebtoken::errors::ErrorKind::InvalidSignature => TokenFault::InvalidSignature,
        jsonwebtoken::errors::ErrorKind::InvalidAlgorithm => TokenFault::InvalidAlgorithm,
        jsonwebtoken::errors::ErrorKind::ExpiredSignature => TokenFault::ExpiredSignature,
        _ => TokenFault::Other,
    }
}

/// Calls `serde_json::from_slice` for a `Value`, then `Value::get` with
/// `key` and `Value::as_str`.
///
/// Trusted: the result is what [`json_member_text`] names.
#[verifier::external_body]
fn json_text(bytes: &[u8], key: &str) -> (r: Option<String>)
    ensures
        match r {
            Some(text) => json_member_text(bytes@, key@) == Some(text@),
            None => json_member_text(bytes@, key@) is None,
        },
{
    let value: serde_json::Value = serde_json::from_slice(bytes).ok()?;
    value.get(key).and_then(serde_json::Value::as_str).map(str::to_owned)
}

/// Calls `jsonwebtoken::encode` with an HS256 header on the JSON object
/// that holds the four values under `names`.
///
/// Trusted: the call succeeds, since an HMAC key fits an HS256 header and
/// neither writing the JSON of integers and a string nor computing the MAC
/// can fail; the result is what [`hs256_token`] names; it is three
/// base64url segments whose first holds a JSON object with `alg` set to
/// `HS256`; and a token written under the names on the wire, which are
/// four different names with `exp` for the expiry, decodes under the same
/// secret and names to the fields it was written for, since the decoder
/// re-signs header and payload with the key and compares, and reads back
/// the JSON that the encoder wrote.
#[verifier::external_body]
fn encode_hs256(
    user_id: i32,
    username: &str,
    issued_at: u64,
    expires_at: u64,
    secret: &[u8],
    names: ClaimNames,
) -> (r: Result<String, jsonwebtoken::errors::Error>)
    ensures
        r is Ok,
        r matches Ok(t) ==> t@ == hs256_token(
            user_id as int,
            username@,
            issued_at as int,
            expires_at as int,
            secret@,
            names@,
        ),
        r matches Ok(t) ==> well_framed(t@),
        r matches Ok(t) ==> header_algorithm(t@) == Some(expected_algorithm()),
        r matches Ok(t) ==> (names@ == wire_names() ==> hs256_decode(t@, secret@, names@)
            == decoded_claims(
            raw_fields(user_id as int, username@, issued_at as int, expires_at as int),
        )),
{
    let mut payload = serde_json::Map::new();
    payload.insert(names.user_id.to_string(), serde_json::Value::from(user_id));
    payload.insert(names.username.to_string(), serde_json::Value::from(username));
    payload.insert(names.issued_at.to_string(), serde_json::Value::from(issued_at));
    payload.insert(names.expires_at.to_string(), serde_json::Value::from(expires_at));
    let header = jsonwebtoken::Header::new(jsonwebtoken::Algorithm::HS256);
    jsonwebtoken::encode(&header, &payload, &jsonwebtoken::EncodingKey::from_secret(secret))
}

/// The error that the guard reports for a fault: a token that cannot be
/// read is malformed, an expired one is expired, and every other refusal
/// counts against the signature.
pub open spec fn spec_fault_error(fault: TokenFault) -> AuthError {
    match fault {
        TokenFault::UnreadableHeader => AuthError::MalformedToken,
        TokenFault::InvalidToken => AuthError::MalformedToken,
        TokenFault::Base64 => AuthError::MalformedToken,
        TokenFault::Json => AuthError::MalformedToken,
        TokenFault::Utf8 => AuthError::MalformedToken,
        TokenFault::MissingRequiredClaim => AuthError::MalformedToken,
        TokenFault::ExpiredSignature => AuthError::ExpiredToken,
        TokenFault::InvalidSignature => AuthError::SignatureInvalid,
        TokenFault::InvalidAlgorithm => AuthError::SignatureInvalid,
        TokenFault::Other => AuthError::SignatureInvalid,
    }
}

#[verifier::when_used_as_spec(spec_fault_error)]
pub fn fault_error(fault: TokenFault) -> (e: AuthError)
    ensures
        e == spec_fault_error(fault),
{
    match fault {
        TokenFault::UnreadableHeader => AuthError::MalformedToken,
        TokenFault::InvalidToken => AuthError::MalformedToken,
        TokenFault::Base64 => AuthError::MalformedToken,
        TokenFault::Json => AuthError::MalformedToken,
        TokenFault::Utf8 => AuthError::MalformedToken,
        TokenFault::MissingRequiredClaim => AuthError::MalformedToken,
        TokenFault::ExpiredSignature => AuthError::ExpiredToken,
        TokenFault::InvalidSignature => AuthError::SignatureInvalid,
        TokenFault::InvalidAlgorithm => AuthError::SignatureInvalid,
        TokenFault::Other => AuthError::SignatureInvalid,
    }
}

impl RawClaimsView {
    /// All four fields are there and the user id is that of an `i32`.
    pub open spec fn complete(self) -> bool {
        &&& self.user_id matches Some(id)
        &&& i32::MIN <= id <= i32::MAX
        &&& self.username is Some
        &&& self.issued_at is Some
        &&& self.expires_at is Some
    }

    /// The claims of a complete record.
    pub open spec fn claims(self) -> ClaimsView
        recommends
            self.complete(),
    {
        ClaimsView {
            user_id: self.user_id.unwrap(),
            username: self.username.unwrap(),
            issued_at: self.issued_at.unwrap(),
            expires_at: self.expires_at.unwrap(),
        }
    }
}

/// What validation at time `now` makes of a decoding.
///
/// A refusal of the decoder is reported as [`spec_fault_error`] says. A
/// decoded record that lacks a field is malformed. Complete claims whose
/// expiry is not after `now` have expired; unexpired ones that do not
/// expire after they were issued are malformed. What is left are the claims.
pub open spec fn validate_decoded(decoded: Result<RawClaimsView, TokenFault>, now: int) -> Result<
    ClaimsView,
    AuthError,
> {
    match decoded {
        Err(fault) => Err(spec_fault_error(fault)),
        Ok(raw) => if !raw.complete() {
            Err(AuthError::MalformedToken)
        } else if raw.claims().expires_at <= now {
            Err(AuthError::ExpiredToken)
        } else if !raw.claims().wf() {
            Err(AuthError::MalformedToken)
        } else {
            Ok(raw.claims())
        },
    }
}

/// What the header of a well-framed token comes to, given the algorithm
/// read out of it: without one the header is unreadable, with another than
/// the expected one the algorithm is invalid.
pub open spec fn header_verdict(algorithm: Option<Seq<char>>) -> Option<TokenFault> {
    match algorithm {
        None => Some(TokenFault::UnreadableHeader),
        Some(name) => if name == expected_algorithm() {
            None
        } else {
            Some(TokenFault::InvalidAlgorithm)
        },
    }
}

/// What reading `token` under `secret` gives. The text is judged first:
/// it is three base64url segments, and its header is a JSON object that
/// names an algorithm. Then the algorithm is the expected one. Only then
/// the decoder's verdict counts.
pub open spec fn token_decoding(token: Seq<char>, secret: Seq<u8>) -> Result<
    RawClaimsView,
    TokenFault,
> {
    if !well_framed(token) {
        Err(TokenFault::InvalidToken)
    } else {
        match header_verdict(header_algorithm(token)) {
            Some(fault) => Err(fault),
            None => hs256_decode(token, secret, wire_names()),
        }
    }
}

/// What validating `token` under `secret` at time `now` gives.
pub open spec fn validate_outcome(token: Seq<char>, secret: Seq<u8>, now: int) -> Result<
    ClaimsView,
    AuthError,
> {
    validate_decoded(token_decoding(token, secret), now)
}

/// Claims that the decoder reads out of a token are returned as they are
/// at every time before their expiry.
pub proof fn lemma_validate_decoded_claims(
    token: Seq<char>,
    secret: Seq<u8>,
    claims: ClaimsView,
    now: int,
)
    requires
        token_decoding(token, secret) == decoded_claims(raw_of(claims)),
        claims.wf(),
        now < claims.expires_at,
    ensures
        validate_outcome(token, secret, now) == Ok::<ClaimsView, AuthError>(claims),
{
    assert(raw_of(claims).complete());
    assert(raw_of(claims).claims() == claims);
}

/// Validation does not depend on when it is asked, up to the expiry: a
/// token found valid at `first` gives the same claims at every time
/// `second` that is not later than `first` or is before the expiry. Asking
/// twice at one time gives one answer.
pub proof fn lemma_validation_stable(token: Seq<char>, secret: Seq<u8>, first: int, second: int)
    requires
        validate_outcome(token, secret, first) is Ok,
        second <= first || second < validate_outcome(token, secret, first).unwrap().expires_at,
    ensures
        validate_outcome(token, secret, second) == validate_outcome(token, secret, first),
{
}

/// A token is refused as expired from its expiry on, whatever else its
/// claims say, provided its text and signature are accepted and all four
/// claims are found.
pub proof fn lemma_expired_rejected(token: Seq<char>, secret: Seq<u8>, raw: RawClaimsView, now: int)
    requires
        token_decoding(token, secret) == decoded_claims(raw),
        raw.complete(),
        raw.claims().expires_at <= now,
    ensures
        validate_outcome(token, secret, now) == Err::<ClaimsView, AuthError>(
            AuthError::ExpiredToken,
        ),
{
}

/// A token whose signature the decoder finds wrong for the secret, or whose
/// header names another algorithm, is refused with `SignatureInvalid` at
/// every time, whatever its claims.
pub proof fn lemma_signature_fault_rejected(token: Seq<char>, secret: Seq<u8>, now: int)
    requires
        token_decoding(token, secret) == decoded_fault(TokenFault::InvalidSignature)
            || token_decoding(token, secret) == decoded_fault(TokenFault::InvalidAlgorithm),
    ensures
        validate_outcome(token, secret, now) == Err::<ClaimsView, AuthError>(
            AuthError::SignatureInvalid,
        ),
{
}

/// A text that is not three base64url segments joined by dots is refused
/// as malformed, under every secret and at every time.
pub proof fn lemma_unframed_malformed(token: Seq<char>, secret: Seq<u8>, now: int)
    requires
        !well_framed(token),
    ensures
        validate_outcome(token, secret, now) == Err::<ClaimsView, AuthError>(
            AuthError::MalformedToken,
        ),
{
}

/// A well-framed token whose header is no JSON object that names an
/// algorithm is refused as malformed; one whose header names another
/// algorithm than the expected one is refused with `SignatureInvalid`,
/// whatever its signature and claims.
pub proof fn lemma_header_judged(token: Seq<char>, secret: Seq<u8>, now: int)
    requires
        well_framed(token),
    ensures
        header_algorithm(token) is None ==> validate_outcome(token, secret, now) == Err::<
            ClaimsView,
            AuthError,
        >(AuthError::MalformedToken),
        header_algorithm(token) matches Some(name) ==> (name != expected_algorithm()
            ==> validate_outcome(token, secret, now) == Err::<ClaimsView, AuthError>(
            AuthError::SignatureInvalid,
        )),
{
}

/// Claims that validation returns are well formed and unexpired, and are
/// the record that the decoder read.
pub proof fn lemma_valid_claims(token: Seq<char>, secret: Seq<u8>, now: int)
    requires
        validate_outcome(token, secret, now) is Ok,
    ensures
        validate_outcome(token, secret, now).unwrap().wf(),
        validate_outcome(token, secret, now).unwrap().expires_at > now,
        token_decoding(token, secret) == decoded_claims(
            raw_of(validate_outcome(token, secret, now).unwrap()),
        ),
{
    let raw = token_decoding(token, secret).unwrap();
    assert(raw_of(raw.claims()) == raw);
}

/// The view of a decoding held in memory.
pub open spec fn decoding_view(decoded: Result<RawClaims, TokenFault>) -> Result<
    RawClaimsView,
    TokenFault,
> {
    match decoded {
        Ok(raw) => Ok(raw@),
        Err(fault) => Err(fault),
    }
}

/// The view of a validation result held in memory.
pub open spec fn validation_view(result: Result<Claims, AuthError>) -> Result<
    ClaimsView,
    AuthError,
> {
    match result {
        Ok(claims) => Ok(claims@),
        Err(error) => Err(error),
    }
}

/// Judges what the decoder found in a token: the second half of
/// [`validate`], for any decoding.
pub fn check_decoded(decoded: Result<RawClaims, TokenFault>, now: u64) -> (r: Result<
    Claims,
    AuthError,
>)
    ensures
        validation_view(r) == validate_decoded(decoding_view(decoded), now as int),
        r matches Ok(c) ==> c@.wf() && c@.expires_at > now,
{
    let raw = match decoded {
        Ok(raw) => raw,
        Err(fault) => {
            return Err(fault_error(fault));
        },
    };
    let ghost view = raw@;
    let RawClaims { user_id, username, issued_at, expires_at } = raw;
    let (id, name, iat, exp) = match (user_id, username, issued_at, expires_at) {
        (Some(id), Some(name), Some(iat), Some(exp)) => (id, name, iat, exp),
        _ => {
            return Err(AuthError::MalformedToken);
        },
    };
    if id < -2147483648 || id > 2147483647 {
        return Err(AuthError::MalformedToken);
    }
    if exp <= now {
        return Err(AuthError::ExpiredToken);
    }
    assert(view.complete());
    match Claims::new(id as i32, name, iat, exp) {
        Some(claims) => {
            assert(claims@ == view.claims());
            Ok(claims)
        },
        None => Err(AuthError::MalformedToken),
    }
}

/// Judges the header of a well-framed token by the algorithm read out of
/// it.
pub fn judge_header(algorithm: Option<String>) -> (r: Option<TokenFault>)
    ensures
        r == header_verdict(
            match algorithm {
                Some(name) => Some(name@),
                None => None,
            },
        ),
{
    match algorithm {
        None => Some(TokenFault::UnreadableHeader),
        Some(name) => {
            let expected = "HS256".to_string();
            if name == expected {
                None
            } else {
                Some(TokenFault::InvalidAlgorithm)
            }
        },
    }
}

/// Validates `token` against `secret` at time `now` (seconds since the
/// epoch): the claims it carries, or why it is refused. Nothing but the
/// three arguments decides the result.
pub fn validate(token: &str, secret: &[u8], now: u64) -> (r: Result<Claims, AuthError>)
    ensures
        validation_view(r) == validate_outcome(token@, secret@, now as int),
        r matches Ok(c) ==> c@.wf() && c@.expires_at > now,
{
    let at = match frame(token) {
        Some(at) => at,
        None => {
            return check_decoded(Err(TokenFault::InvalidToken), now);
        },
    };
    proof {
        lemma_header_segment(token@, at.0 as int, at.1 as int);
    }
    let header = first_segment_bytes(token, at.0);
    match judge_header(json_text(header.as_slice(), "alg")) {
        Some(fault) => {
            return check_decoded(Err(fault), now);
        },
        None => {},
    }
    let decoded = match decode_hs256(token, secret, claim_names()) {
        Ok(raw) => Ok(raw),
        Err(error) => Err(fault_kind(&error)),
    };
    check_decoded(decoded, now)
}

/// The lifetime of a session token, in seconds: one day.
pub const SESSION_TTL: u64 = 86400;

/// The claims that a token issued at `now` for `ttl` seconds carries.
pub open spec fn issued_claims(user_id: int, username: Seq<char>, ttl: int, now: int) -> ClaimsView {
    ClaimsView { user_id, username, issued_at: now, expires_at: now + ttl }
}

/// What issuing a token gives: no token under an empty secret, else the
/// token that the encoder writes for [`issued_claims`].
pub open spec fn issue_outcome(
    user_id: int,
    username: Seq<char>,
    secret: Seq<u8>,
    ttl: int,
    now: int,
) -> Result<Seq<char>, SigningError> {
    if secret.len() == 0 {
        Err(SigningError::EmptySecret)
    } else {
        Ok(hs256_token(user_id, username, now, now + ttl, secret, wire_names()))
    }
}

/// The view of an issuing result held in memory.
pub open spec fn issue_view(result: Result<String, SigningError>) -> Result<
    Seq<char>,
    SigningError,
> {
    match result {
        Ok(token) => Ok(token@),
        Err(error) => Err(error),
    }
}

/// Issues a token for `user_id` and `username`, signed with `secret`, valid
/// from `now` for `ttl` seconds. The lifetime is positive and the expiry a
/// second that a `u64` holds, as claims demand; issuing then fails for an
/// empty secret and for nothing else.
///
/// Round trip: a token that comes back validates under the same secret, at
/// every time before its expiry, to the claims it was issued for.
pub fn issue_at(user_id: i32, username: &str, secret: &[u8], ttl: u64, now: u64) -> (r: Result<
    String,
    SigningError,
>)
    requires
        ttl > 0,
        now + ttl <= u64::MAX,
    ensures
        issue_view(r) == issue_outcome(user_id as int, username@, secret@, ttl as int, now as int),
        r is Ok <==> secret@.len() > 0,
        r matches Ok(t) ==> forall|at: int|
            at < now + ttl ==> #[trigger] validate_outcome(t@, secret@, at) == Ok::<
                ClaimsView,
                AuthError,
            >(issued_claims(user_id as int, username@, ttl as int, now as int)),
{
    if secret.len() == 0 {
        return Err(SigningError::EmptySecret);
    }
    let expires_at = now + ttl;
    match encode_hs256(user_id, username, now, expires_at, secret, claim_names()) {
        Ok(token) => {
            let ghost claims = issued_claims(user_id as int, username@, ttl as int, now as int);
            assert(raw_of(claims) == raw_fields(
                user_id as int,
                username@,
                now as int,
                expires_at as int,
            ));
            assert forall|at: int| at < now + ttl implies #[trigger] validate_outcome(
                token@,
                secret@,
                at,
            ) == Ok::<ClaimsView, AuthError>(claims) by {
                lemma_validate_decoded_claims(token@, secret@, claims, at);
            }
            Ok(token)
        },
        Err(_) => vstd::pervasive::unreached(),
    }
}

} // verus!
