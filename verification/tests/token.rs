use auth_gate::claims::Claims;
use auth_gate::errors::{AuthError, SigningError};
use auth_gate::token::{
    check_decoded, claim_names, fault_error, issue_at, judge_header, validate, RawClaims,
    TokenFault,
};
use auth_gate::wire::{first_segment_bytes, frame};

const SECRET: &[u8] = b"correct horse battery staple";

fn raw(user_id: Option<i64>, username: Option<&str>, iat: Option<u64>, exp: Option<u64>) -> RawClaims {
    RawClaims { user_id, username: username.map(str::to_owned), issued_at: iat, expires_at: exp }
}

fn sign(algorithm: jsonwebtoken::Algorithm, fields: &[(&str, serde_json::Value)], secret: &[u8]) -> String {
    let mut payload = serde_json::Map::new();
    for (key, value) in fields {
        payload.insert(key.to_string(), value.clone());
    }
    jsonwebtoken::encode(
        &jsonwebtoken::Header::new(algorithm),
        &payload,
        &jsonwebtoken::EncodingKey::from_secret(secret),
    )
    .unwrap()
}

#[test]
fn issue_then_validate_returns_the_claims() {
    let token = issue_at(7, "alice_01", SECRET, 3600, 1_000).unwrap();
    let claims = validate(&token, SECRET, 1_000).unwrap();
    assert_eq!(claims.user_id(), 7);
    assert_eq!(claims.username(), "alice_01");
    assert_eq!(claims.issued_at(), 1_000);
    assert_eq!(claims.expires_at(), 4_600);
    assert!(claims.expires_at() > 1_000);
}

#[test]
fn token_is_three_base64url_segments() {
    let token = issue_at(7, "alice_01", SECRET, 3600, 1_000).unwrap();
    let parts: Vec<&str> = token.split('.').collect();
    assert_eq!(parts.len(), 3);
    for part in parts {
        assert!(!part.is_empty());
        assert!(part.chars().all(|c| c.is_ascii_alphanumeric() || c == '-' || c == '_'));
    }
    assert_ne!(token, "alice_01");
}

#[test]
fn token_is_valid_until_the_second_before_expiry() {
    let token = issue_at(7, "alice_01", SECRET, 3600, 1_000).unwrap();
    assert!(validate(&token, SECRET, 4_599).is_ok());
    assert_eq!(validate(&token, SECRET, 4_600), Err(AuthError::ExpiredToken));
    assert_eq!(validate(&token, SECRET, 4_601), Err(AuthError::ExpiredToken));
    assert_eq!(validate(&token, SECRET, u64::MAX), Err(AuthError::ExpiredToken));
}

#[test]
fn token_is_valid_before_it_was_issued() {
    let token = issue_at(7, "alice_01", SECRET, 3600, 1_000).unwrap();
    assert!(validate(&token, SECRET, 0).is_ok());
}

#[test]
fn validating_twice_gives_the_same_claims() {
    let token = issue_at(42, "bob_the_builder", SECRET, 60, 500).unwrap();
    let first = validate(&token, SECRET, 510);
    let second = validate(&token, SECRET, 510);
    assert!(first.is_ok());
    assert_eq!(first, second);
    let later = validate(&token, SECRET, 559);
    assert_eq!(first, later);
}

#[test]
fn issuing_is_deterministic() {
    let first = issue_at(42, "bob_the_builder", SECRET, 60, 500).unwrap();
    let second = issue_at(42, "bob_the_builder", SECRET, 60, 500).unwrap();
    assert_eq!(first, second);
    let other = issue_at(43, "bob_the_builder", SECRET, 60, 500).unwrap();
    assert_ne!(first, other);
}

#[test]
fn round_trip_keeps_unusual_names_and_ids() {
    for (id, name) in [(i32::MIN, ""), (i32::MAX, "çé\"\\\u{0}\n🙂"), (-1, "a.b.c"), (0, " ")] {
        let token = issue_at(id, name, SECRET, 1, u64::MAX - 1).unwrap();
        let claims = validate(&token, SECRET, u64::MAX - 1).unwrap();
        assert_eq!(claims.user_id(), id);
        assert_eq!(claims.username(), name);
        assert_eq!(claims.issued_at(), u64::MAX - 1);
        assert_eq!(claims.expires_at(), u64::MAX);
    }
}

#[test]
fn empty_secret_is_a_signing_error() {
    assert_eq!(issue_at(7, "alice_01", b"", 3600, 1_000), Err(SigningError::EmptySecret));
    assert_eq!(issue_at(i32::MIN, "", b"", 1, 0), Err(SigningError::EmptySecret));
}

#[test]
fn any_secret_that_is_not_empty_signs() {
    for secret in [&b"x"[..], &b"\0"[..], &[0xff; 200][..], SECRET] {
        assert!(issue_at(7, "alice_01", secret, 1, 0).is_ok());
        assert!(issue_at(7, "alice_01", secret, u64::MAX, 0).is_ok());
        assert!(issue_at(7, "alice_01", secret, 1, u64::MAX - 1).is_ok());
    }
}

#[test]
fn token_signed_with_another_secret_is_refused() {
    let token = issue_at(7, "alice_01", b"another secret", 3600, 1_000).unwrap();
    assert_eq!(validate(&token, SECRET, 1_000), Err(AuthError::SignatureInvalid));
    assert_eq!(validate(&token, SECRET, 9_000), Err(AuthError::SignatureInvalid));
}

#[test]
fn tampered_payload_is_refused() {
    let token = issue_at(7, "alice_01", SECRET, 3600, 1_000).unwrap();
    let forged = issue_at(8, "alice_01", b"another secret", 3600, 1_000).unwrap();
    let mine: Vec<&str> = token.split('.').collect();
    let theirs: Vec<&str> = forged.split('.').collect();
    let spliced = format!("{}.{}.{}", mine[0], theirs[1], mine[2]);
    assert_eq!(validate(&spliced, SECRET, 1_000), Err(AuthError::SignatureInvalid));
}

#[test]
fn token_under_another_algorithm_is_refused() {
    let token = sign(
        jsonwebtoken::Algorithm::HS384,
        &[
            ("user_id", serde_json::Value::from(7)),
            ("username", serde_json::Value::from("alice_01")),
            ("iat", serde_json::Value::from(1_000u64)),
            ("exp", serde_json::Value::from(4_600u64)),
        ],
        SECRET,
    );
    assert_eq!(validate(&token, SECRET, 1_000), Err(AuthError::SignatureInvalid));
}

#[test]
fn text_that_is_no_token_is_malformed() {
    assert_eq!(validate("", SECRET, 0), Err(AuthError::MalformedToken));
    assert_eq!(validate("abc", SECRET, 0), Err(AuthError::MalformedToken));
    assert_eq!(validate("a.b", SECRET, 0), Err(AuthError::MalformedToken));
    assert_eq!(validate("a.b.c.d", SECRET, 0), Err(AuthError::MalformedToken));
    assert_eq!(validate("!!.??.##", SECRET, 0), Err(AuthError::MalformedToken));
}

#[test]
fn signed_payload_without_a_claim_is_malformed() {
    let no_id = sign(
        jsonwebtoken::Algorithm::HS256,
        &[
            ("username", serde_json::Value::from("alice_01")),
            ("iat", serde_json::Value::from(1_000u64)),
            ("exp", serde_json::Value::from(4_600u64)),
        ],
        SECRET,
    );
    assert_eq!(validate(&no_id, SECRET, 1_000), Err(AuthError::MalformedToken));
    let no_exp = sign(
        jsonwebtoken::Algorithm::HS256,
        &[
            ("user_id", serde_json::Value::from(7)),
            ("username", serde_json::Value::from("alice_01")),
            ("iat", serde_json::Value::from(1_000u64)),
        ],
        SECRET,
    );
    assert_eq!(validate(&no_exp, SECRET, 1_000), Err(AuthError::MalformedToken));
    let wrong_types = sign(
        jsonwebtoken::Algorithm::HS256,
        &[
            ("user_id", serde_json::Value::from("7")),
            ("username", serde_json::Value::from(7)),
            ("iat", serde_json::Value::from(1_000u64)),
            ("exp", serde_json::Value::from(4_600u64)),
        ],
        SECRET,
    );
    assert_eq!(validate(&wrong_types, SECRET, 1_000), Err(AuthError::MalformedToken));
}

#[test]
fn signed_payload_that_expires_before_it_was_issued_is_malformed() {
    let token = sign(
        jsonwebtoken::Algorithm::HS256,
        &[
            ("user_id", serde_json::Value::from(7)),
            ("username", serde_json::Value::from("alice_01")),
            ("iat", serde_json::Value::from(5_000u64)),
            ("exp", serde_json::Value::from(4_600u64)),
        ],
        SECRET,
    );
    assert_eq!(validate(&token, SECRET, 1_000), Err(AuthError::MalformedToken));
    assert_eq!(validate(&token, SECRET, 4_600), Err(AuthError::ExpiredToken));
}

#[test]
fn decoder_faults_map_to_gate_errors() {
    assert_eq!(fault_error(TokenFault::InvalidToken), AuthError::MalformedToken);
    assert_eq!(fault_error(TokenFault::Base64), AuthError::MalformedToken);
    assert_eq!(fault_error(TokenFault::Json), AuthError::MalformedToken);
    assert_eq!(fault_error(TokenFault::Utf8), AuthError::MalformedToken);
    assert_eq!(fault_error(TokenFault::MissingRequiredClaim), AuthError::MalformedToken);
    assert_eq!(fault_error(TokenFault::ExpiredSignature), AuthError::ExpiredToken);
    assert_eq!(fault_error(TokenFault::InvalidSignature), AuthError::SignatureInvalid);
    assert_eq!(fault_error(TokenFault::InvalidAlgorithm), AuthError::SignatureInvalid);
    assert_eq!(fault_error(TokenFault::Other), AuthError::SignatureInvalid);
    assert_eq!(fault_error(TokenFault::UnreadableHeader), AuthError::MalformedToken);
}

#[test]
fn check_decoded_forwards_faults() {
    assert_eq!(check_decoded(Err(TokenFault::InvalidSignature), 0), Err(AuthError::SignatureInvalid));
    assert_eq!(check_decoded(Err(TokenFault::InvalidToken), 0), Err(AuthError::MalformedToken));
    assert_eq!(check_decoded(Err(TokenFault::ExpiredSignature), 0), Err(AuthError::ExpiredToken));
}

#[test]
fn check_decoded_accepts_complete_unexpired_claims() {
    let claims = check_decoded(Ok(raw(Some(7), Some("alice_01"), Some(10), Some(20))), 19).unwrap();
    assert_eq!(Some(claims.clone()), Claims::new(7, "alice_01".to_string(), 10, 20));
    assert_eq!(claims.user_id(), 7);
    assert_eq!(claims.username(), "alice_01");
    assert_eq!(claims.issued_at(), 10);
    assert_eq!(claims.expires_at(), 20);
}

#[test]
fn check_decoded_rejects_incomplete_records() {
    let now = 5;
    assert_eq!(check_decoded(Ok(raw(None, Some("a"), Some(1), Some(9))), now), Err(AuthError::MalformedToken));
    assert_eq!(check_decoded(Ok(raw(Some(1), None, Some(1), Some(9))), now), Err(AuthError::MalformedToken));
    assert_eq!(check_decoded(Ok(raw(Some(1), Some("a"), None, Some(9))), now), Err(AuthError::MalformedToken));
    assert_eq!(check_decoded(Ok(raw(Some(1), Some("a"), Some(1), None)), now), Err(AuthError::MalformedToken));
    assert_eq!(check_decoded(Ok(raw(None, None, None, None)), now), Err(AuthError::MalformedToken));
}

#[test]
fn check_decoded_rejects_ids_outside_i32() {
    let over = i32::MAX as i64 + 1;
    let under = i32::MIN as i64 - 1;
    assert_eq!(check_decoded(Ok(raw(Some(over), Some("a"), Some(1), Some(9))), 5), Err(AuthError::MalformedToken));
    assert_eq!(check_decoded(Ok(raw(Some(under), Some("a"), Some(1), Some(9))), 5), Err(AuthError::MalformedToken));
    assert!(check_decoded(Ok(raw(Some(i32::MAX as i64), Some("a"), Some(1), Some(9))), 5).is_ok());
    assert!(check_decoded(Ok(raw(Some(i32::MIN as i64), Some("a"), Some(1), Some(9))), 5).is_ok());
}

#[test]
fn check_decoded_expiry_is_inclusive() {
    assert!(check_decoded(Ok(raw(Some(1), Some("a"), Some(1), Some(9))), 8).is_ok());
    assert_eq!(check_decoded(Ok(raw(Some(1), Some("a"), Some(1), Some(9))), 9), Err(AuthError::ExpiredToken));
    assert_eq!(check_decoded(Ok(raw(Some(1), Some("a"), Some(1), Some(9))), 10), Err(AuthError::ExpiredToken));
}

#[test]
fn check_decoded_expiry_comes_before_the_order_of_the_times() {
    assert_eq!(check_decoded(Ok(raw(Some(1), Some("a"), Some(9), Some(9))), 9), Err(AuthError::ExpiredToken));
    assert_eq!(check_decoded(Ok(raw(Some(1), Some("a"), Some(9), Some(9))), 8), Err(AuthError::MalformedToken));
    assert_eq!(check_decoded(Ok(raw(Some(1), Some("a"), Some(12), Some(9))), 3), Err(AuthError::MalformedToken));
}

#[test]
fn claims_expire_after_they_were_issued() {
    assert!(Claims::new(1, "a".to_string(), 5, 6).is_some());
    assert!(Claims::new(1, "a".to_string(), 5, 5).is_none());
    assert!(Claims::new(1, "a".to_string(), 6, 5).is_none());
    assert!(Claims::new(1, "a".to_string(), 0, u64::MAX).is_some());
}

#[test]
fn secrets_that_differ_in_trailing_zero_bytes_sign_alike() {
    let token = issue_at(7, "alice_01", b"short key\0", 3600, 1_000).unwrap();
    let claims = validate(&token, b"short key", 1_000).unwrap();
    assert_eq!(claims.user_id(), 7);
    assert_eq!(token, issue_at(7, "alice_01", b"short key", 3600, 1_000).unwrap());
}

const PAYLOAD: &str = "eyJ1c2VyX2lkIjo3LCJ1c2VybmFtZSI6ImFsaWNlXzAxIiwiaWF0IjoxMDAwLCJleHAiOjQ2MDB9";

#[test]
fn header_that_names_another_algorithm_is_refused_for_its_signature() {
    let unsigned = format!("eyJhbGciOiJub25lIiwidHlwIjoiSldUIn0.{}.", PAYLOAD);
    assert_eq!(validate(&unsigned, SECRET, 1_000), Err(AuthError::SignatureInvalid));
    let signed = format!(
        "eyJhbGciOiJub25lIiwidHlwIjoiSldUIn0.{}.mcVfdVxfTJc4bMvjuBtR2bl8936qXoUUSKCH96JFdiI",
        PAYLOAD
    );
    assert_eq!(validate(&signed, SECRET, 1_000), Err(AuthError::SignatureInvalid));
    let unknown = format!("eyJ0eXAiOiJKV1QiLCJhbGciOiJIUzEwMjQifQ.{}.abc", PAYLOAD);
    assert_eq!(validate(&unknown, SECRET, 1_000), Err(AuthError::SignatureInvalid));
    assert_eq!(validate(&unknown, SECRET, 9_000), Err(AuthError::SignatureInvalid));
}

#[test]
fn header_that_is_no_json_object_with_an_algorithm_is_malformed() {
    assert_eq!(validate("aGVsbG8.e30.c2ln", SECRET, 1_000), Err(AuthError::MalformedToken));
    assert_eq!(validate("e30.e30.c2ln", SECRET, 1_000), Err(AuthError::MalformedToken));
    assert_eq!(validate("eyJhbGciOjV9.e30.c2ln", SECRET, 1_000), Err(AuthError::MalformedToken));
    assert_eq!(validate("WzFd.e30.c2ln", SECRET, 1_000), Err(AuthError::MalformedToken));
    assert_eq!(validate("..", SECRET, 1_000), Err(AuthError::MalformedToken));
    assert_eq!(validate(".e30.c2ln", SECRET, 1_000), Err(AuthError::MalformedToken));
}

#[test]
fn segment_that_is_not_base64url_is_malformed_whatever_the_signature() {
    let header = "eyJ0eXAiOiJKV1QiLCJhbGciOiJIUzI1NiJ9";
    for token in [
        format!("{}.??.##", header),
        format!("{}.{}.##", header, PAYLOAD),
        format!("{}.{}=.c2ln", header, PAYLOAD),
        format!("{}.{}.c2ln=", header, PAYLOAD),
        format!("{}.{}.c2l", header, PAYLOAD),
        format!("{}.{}.c", header, PAYLOAD),
        format!("{}.e.c2ln", header),
        format!("{}.{}.c2 ln", header, PAYLOAD),
        format!("{}.{}.c2l\u{e9}", header, PAYLOAD),
        format!("{}+.{}.c2ln", header, PAYLOAD),
        format!("{}.{}.c2ln.", header, PAYLOAD),
        format!(".{}.{}.c2ln", header, PAYLOAD),
        format!("{}{}", header, PAYLOAD),
        format!("{}.{}", header, PAYLOAD),
    ] {
        assert_eq!(validate(&token, SECRET, 1_000), Err(AuthError::MalformedToken), "{}", token);
        assert_eq!(validate(&token, b"x", 9_000), Err(AuthError::MalformedToken), "{}", token);
    }
}

#[test]
fn well_formed_token_with_a_wrong_signature_is_refused_for_it() {
    let header = "eyJ0eXAiOiJKV1QiLCJhbGciOiJIUzI1NiJ9";
    let token = format!("{}.{}.c2ln", header, PAYLOAD);
    assert_eq!(validate(&token, SECRET, 1_000), Err(AuthError::SignatureInvalid));
    let empty_signature = format!("{}.{}.", header, PAYLOAD);
    assert_eq!(validate(&empty_signature, SECRET, 1_000), Err(AuthError::SignatureInvalid));
}

#[test]
fn audience_claim_is_no_ground_for_refusal() {
    let token = sign(
        jsonwebtoken::Algorithm::HS256,
        &[
            ("user_id", serde_json::Value::from(7)),
            ("username", serde_json::Value::from("alice_01")),
            ("iat", serde_json::Value::from(1_000u64)),
            ("exp", serde_json::Value::from(4_600u64)),
            ("aud", serde_json::Value::from("somebody")),
        ],
        SECRET,
    );
    let claims = validate(&token, SECRET, 1_000).unwrap();
    assert_eq!((claims.user_id(), claims.username()), (7, "alice_01"));
}

#[test]
fn signed_payload_that_is_no_json_is_malformed() {
    let token = "eyJ0eXAiOiJKV1QiLCJhbGciOiJIUzI1NiJ9.bm90IGpzb24gYXQgYWxs.AxL1gVictqjgJkR0orLAFCyn9a1AjqconoFQWPelC-Q";
    assert_eq!(validate(token, SECRET, 1_000), Err(AuthError::MalformedToken));
}

#[test]
fn header_is_judged_by_its_algorithm() {
    assert_eq!(judge_header(None), Some(TokenFault::UnreadableHeader));
    assert_eq!(judge_header(Some("HS256".to_string())), None);
    for name in ["", "none", "hs256", "HS256 ", "HS384", "RS256", "HS25"] {
        assert_eq!(judge_header(Some(name.to_string())), Some(TokenFault::InvalidAlgorithm), "{}", name);
    }
}

#[test]
fn frame_finds_the_two_dots() {
    assert_eq!(frame("TQ.TWE.TWFu"), Some((2, 6)));
    assert_eq!(frame(".."), Some((0, 1)));
    assert_eq!(frame("TWFu..-_-_"), Some((4, 5)));
    assert_eq!(frame(&issue_at(7, "alice_01", SECRET, 3600, 1_000).unwrap()).map(|at| at.0), Some(36));
}

#[test]
fn frame_refuses_what_is_not_three_segments() {
    for text in [
        "", ".", "...", "TQ.TWE", "TQ.TWE.TWFu.TQ", "TQTWE", "a.TWE.TWFu", "TQ.TWE.TWFuT",
        "TR.TWE.TWFu", "TQ.TWF.TWFu", "TQ.TW=.TWFu", "TQ.TWE.TW Fu", "TQ.TWE.TWF\u{fc}", "TQ/.TWE.TWFu",
        "TQ.TWE.TWFu\n", " TQ.TWE.TWFu",
    ] {
        assert_eq!(frame(text), None, "{:?}", text);
    }
}

#[test]
fn segment_bytes_are_those_of_base64url() {
    assert_eq!(first_segment_bytes(".x.y", 0), Vec::<u8>::new());
    assert_eq!(first_segment_bytes("TQ..", 2), b"M".to_vec());
    assert_eq!(first_segment_bytes("TWE..", 3), b"Ma".to_vec());
    assert_eq!(first_segment_bytes("TWFu..", 4), b"Man".to_vec());
    assert_eq!(first_segment_bytes("aGVsbG8.e30.c2ln", 7), b"hello".to_vec());
    assert_eq!(first_segment_bytes("-_-_..", 4), vec![0xfb, 0xff, 0xbf]);
    assert_eq!(first_segment_bytes("AAAA____AA..", 10), vec![0, 0, 0, 0xff, 0xff, 0xff, 0]);
    let token = issue_at(7, "alice_01", SECRET, 3600, 1_000).unwrap();
    let (first, _) = frame(&token).unwrap();
    assert_eq!(first_segment_bytes(&token, first), b"{\"typ\":\"JWT\",\"alg\":\"HS256\"}".to_vec());
}

#[test]
fn payload_holds_the_four_claims_under_their_wire_names() {
    let names = claim_names();
    assert_eq!(
        (names.user_id, names.username, names.issued_at, names.expires_at),
        ("user_id", "username", "iat", "exp")
    );
    let token = issue_at(7, "alice_01", SECRET, 3600, 1_000).unwrap();
    let mut validation = jsonwebtoken::Validation::new(jsonwebtoken::Algorithm::HS256);
    validation.validate_exp = false;
    let key = jsonwebtoken::DecodingKey::from_secret(SECRET);
    let data = jsonwebtoken::decode::<serde_json::Value>(&token, &key, &validation).unwrap();
    let payload = data.claims.as_object().unwrap();
    assert_eq!(payload.len(), 4);
    assert_eq!(payload.get("user_id"), Some(&serde_json::Value::from(7)));
    assert_eq!(payload.get("username"), Some(&serde_json::Value::from("alice_01")));
    assert_eq!(payload.get("iat"), Some(&serde_json::Value::from(1_000u64)));
    assert_eq!(payload.get("exp"), Some(&serde_json::Value::from(4_600u64)));
    assert_eq!(data.header.alg, jsonwebtoken::Algorithm::HS256);
}
