use blog_core::claims::Claims;
use blog_core::error::AuthError;
use blog_core::token::{
    check_decoded, create_token, refresh_token_at, validate_token, validate_token_at,
    DecodeFailure, DecodedPayload,
};

const SECRET: &str = "a secret for the tests only";
const T0: i64 = 1_700_000_000;

fn sample(now: i64) -> Claims {
    Claims::new_at(42, String::from("ada"), String::from("user"), 24, now)
}

#[test]
fn issued_token_has_three_segments() {
    let token = create_token(&sample(T0), SECRET).unwrap();
    assert_eq!(token.split('.').count(), 3);
    assert!(token.split('.').all(|part| !part.is_empty()));
}

#[test]
fn issue_is_deterministic() {
    let a = create_token(&sample(T0), SECRET).unwrap();
    let b = create_token(&sample(T0), SECRET).unwrap();
    assert_eq!(a, b);
}

#[test]
fn verify_returns_the_issued_claims() {
    let claims = sample(T0);
    let token = create_token(&claims, SECRET).unwrap();
    let back = validate_token_at(&token, SECRET, T0 + 3600).unwrap();
    assert_eq!(back.sub, "42");
    assert_eq!(back.role, "user");
    assert_eq!(back.username, "ada");
    assert_eq!(back.iat, T0);
    assert_eq!(back.exp, T0 + 24 * 3600);
}

#[test]
fn verify_round_trips_unusual_text() {
    let claims = Claims::new_at(
        -7,
        String::from("Zo\u{eb} \"Z\" \\ \u{1F980}\n"),
        String::from("r\u{f4}le with spaces"),
        1,
        T0,
    );
    let token = create_token(&claims, SECRET).unwrap();
    let back = validate_token_at(&token, SECRET, T0).unwrap();
    assert_eq!(back.sub, "-7");
    assert_eq!(back.username, claims.username);
    assert_eq!(back.role, claims.role);
    assert_eq!(back.exp, T0 + 3600);
}

#[test]
fn verify_one_second_before_expiry_succeeds() {
    let token = create_token(&sample(T0), SECRET).unwrap();
    assert!(validate_token_at(&token, SECRET, T0 + 24 * 3600 - 1).is_ok());
}

#[test]
fn verify_at_expiry_instant_fails_as_expired() {
    let token = create_token(&sample(T0), SECRET).unwrap();
    let err = validate_token_at(&token, SECRET, T0 + 24 * 3600).unwrap_err();
    assert_eq!(err, AuthError::ExpiredToken);
}

#[test]
fn verify_after_expiry_fails_as_expired() {
    let token = create_token(&sample(T0), SECRET).unwrap();
    let err = validate_token_at(&token, SECRET, T0 + 25 * 3600).unwrap_err();
    assert_eq!(err, AuthError::ExpiredToken);
}

#[test]
fn verify_with_another_secret_fails_as_invalid_signature() {
    let token = create_token(&sample(T0), SECRET).unwrap();
    let err = validate_token_at(&token, "another secret", T0 + 1).unwrap_err();
    assert_eq!(err, AuthError::InvalidSignature);
}

#[test]
fn every_single_character_change_of_the_signature_is_rejected() {
    let token = create_token(&sample(T0), SECRET).unwrap();
    let cut = token.rfind('.').unwrap() + 1;
    let alphabet = "ABCDEFGHIJKLMNOPQRSTUVWXYZabcdefghijklmnopqrstuvwxyz0123456789-_";
    let mut tried = 0;
    for at in cut..token.len() {
        for c in alphabet.chars() {
            let mut bytes = token.clone().into_bytes();
            if bytes[at] == c as u8 {
                continue;
            }
            bytes[at] = c as u8;
            let forged = String::from_utf8(bytes).unwrap();
            let err = validate_token_at(&forged, SECRET, T0 + 1).unwrap_err();
            assert_eq!(err, AuthError::InvalidSignature);
            tried += 1;
        }
    }
    assert_eq!(tried, (token.len() - cut) * 63);
}

#[test]
fn a_changed_payload_is_rejected() {
    let token = create_token(&sample(T0), SECRET).unwrap();
    let first = token.find('.').unwrap() + 1;
    let mut bytes = token.clone().into_bytes();
    bytes[first + 3] = if bytes[first + 3] == b'A' { b'B' } else { b'A' };
    let forged = String::from_utf8(bytes).unwrap();
    assert!(validate_token_at(&forged, SECRET, T0 + 1).is_err());
}

#[test]
fn garbage_is_malformed() {
    for text in ["", "garbage", "a.b", "a.b.c", "a.b.c.d", "..", "Bearer x"] {
        let err = validate_token_at(text, SECRET, T0).unwrap_err();
        assert_eq!(err, AuthError::MalformedToken);
    }
}

#[test]
fn token_of_another_algorithm_is_rejected() {
    let mut header = jsonwebtoken::Header::default();
    header.alg = jsonwebtoken::Algorithm::HS512;
    let mut body = serde_json::Map::new();
    body.insert(String::from("sub"), serde_json::Value::from("42"));
    body.insert(String::from("exp"), serde_json::Value::from(T0 + 3600));
    body.insert(String::from("iat"), serde_json::Value::from(T0));
    body.insert(String::from("role"), serde_json::Value::from("admin"));
    body.insert(String::from("username"), serde_json::Value::from("ada"));
    let key = jsonwebtoken::EncodingKey::from_secret(SECRET.as_bytes());
    let token = jsonwebtoken::encode(&header, &body, &key).unwrap();
    assert!(validate_token_at(&token, SECRET, T0 + 1).is_err());
}

#[test]
fn token_without_a_claim_is_malformed() {
    let mut body = serde_json::Map::new();
    body.insert(String::from("sub"), serde_json::Value::from("42"));
    body.insert(String::from("exp"), serde_json::Value::from(T0 + 3600));
    body.insert(String::from("iat"), serde_json::Value::from(T0));
    body.insert(String::from("username"), serde_json::Value::from("ada"));
    let key = jsonwebtoken::EncodingKey::from_secret(SECRET.as_bytes());
    let token = jsonwebtoken::encode(&jsonwebtoken::Header::default(), &body, &key).unwrap();
    let err = validate_token_at(&token, SECRET, T0 + 1).unwrap_err();
    assert_eq!(err, AuthError::MalformedToken);
}

#[test]
fn token_with_a_claim_of_the_wrong_type_is_malformed() {
    let mut body = serde_json::Map::new();
    body.insert(String::from("sub"), serde_json::Value::from(42));
    body.insert(String::from("exp"), serde_json::Value::from(T0 + 3600));
    body.insert(String::from("iat"), serde_json::Value::from(T0));
    body.insert(String::from("role"), serde_json::Value::from("user"));
    body.insert(String::from("username"), serde_json::Value::from("ada"));
    let key = jsonwebtoken::EncodingKey::from_secret(SECRET.as_bytes());
    let token = jsonwebtoken::encode(&jsonwebtoken::Header::default(), &body, &key).unwrap();
    let err = validate_token_at(&token, SECRET, T0 + 1).unwrap_err();
    assert_eq!(err, AuthError::MalformedToken);
}

#[test]
fn the_decoder_of_the_codec_accepts_what_the_crate_issues_in_another_field_order() {
    let token = create_token(&sample(T0), SECRET).unwrap();
    let mut rules = jsonwebtoken::Validation::new(jsonwebtoken::Algorithm::HS256);
    rules.validate_exp = false;
    let key = jsonwebtoken::DecodingKey::from_secret(SECRET.as_bytes());
    let data = jsonwebtoken::decode::<serde_json::Value>(&token, &key, &rules).unwrap();
    assert_eq!(data.claims["sub"], "42");
    assert_eq!(data.claims["exp"], T0 + 24 * 3600);
    assert_eq!(data.header.alg, jsonwebtoken::Algorithm::HS256);
}

#[test]
fn check_decoded_maps_each_outcome() {
    let full = || DecodedPayload {
        sub: Some(String::from("42")),
        exp: Some(100),
        iat: Some(10),
        role: Some(String::from("user")),
        username: Some(String::from("ada")),
    };
    let ok = check_decoded(Ok(full()), 99).unwrap();
    assert_eq!((ok.sub.as_str(), ok.exp, ok.iat), ("42", 100, 10));
    assert_eq!(check_decoded(Ok(full()), 100).unwrap_err(), AuthError::ExpiredToken);
    assert_eq!(check_decoded(Ok(full()), 101).unwrap_err(), AuthError::ExpiredToken);
    let mut partial = full();
    partial.iat = None;
    assert_eq!(check_decoded(Ok(partial), 0).unwrap_err(), AuthError::MalformedToken);
    let mut partial = full();
    partial.exp = None;
    assert_eq!(check_decoded(Ok(partial), 0).unwrap_err(), AuthError::MalformedToken);
    assert_eq!(
        check_decoded(Err(DecodeFailure::Signature), 0).unwrap_err(),
        AuthError::InvalidSignature
    );
    assert_eq!(
        check_decoded(Err(DecodeFailure::Malformed), 0).unwrap_err(),
        AuthError::MalformedToken
    );
}

#[test]
fn scenario_issue_verify_expire_refresh() {
    let original = Claims::new_at(42, String::from("ada"), String::from("user"), 24, T0);
    let token = create_token(&original, SECRET).unwrap();

    let seen = validate_token_at(&token, SECRET, T0 + 3600).unwrap();
    assert_eq!(seen.sub, "42");
    assert_eq!(seen.role, "user");

    let late = validate_token_at(&token, SECRET, T0 + 25 * 3600).unwrap_err();
    assert_eq!(late, AuthError::ExpiredToken);

    let fresh = refresh_token_at(&token, SECRET, 24, T0 + 3600).unwrap();
    let renewed = validate_token_at(&fresh, SECRET, T0 + 3600 + 1).unwrap();
    assert!(renewed.iat > original.iat);
    assert_eq!(renewed.iat, T0 + 3600);
    assert_eq!(renewed.exp, T0 + 3600 + 24 * 3600);
    assert_eq!(renewed.sub, "42");
    assert_eq!(renewed.role, "user");
    assert_eq!(renewed.username, "ada");
}

#[test]
fn refreshing_an_expired_token_fails_as_expired() {
    let token = create_token(&sample(T0), SECRET).unwrap();
    let err = refresh_token_at(&token, SECRET, 24, T0 + 24 * 3600).unwrap_err();
    assert_eq!(err, AuthError::ExpiredToken);
}

#[test]
fn refreshing_garbage_fails_as_malformed() {
    let err = refresh_token_at("garbage", SECRET, 24, T0).unwrap_err();
    assert_eq!(err, AuthError::MalformedToken);
}

#[test]
fn verify_by_the_clock_accepts_a_fresh_token_and_rejects_an_old_one() {
    let fresh = Claims::new(7, String::from("bob"), String::from("admin"), 1);
    assert!(fresh.iat > 1_600_000_000);
    assert_eq!(fresh.exp, fresh.iat + 3600);
    let token = create_token(&fresh, SECRET).unwrap();
    let seen = validate_token(&token, SECRET).unwrap();
    assert_eq!(seen.sub, "7");
    let old = create_token(&sample(1_000_000_000), SECRET).unwrap();
    assert_eq!(validate_token(&old, SECRET).unwrap_err(), AuthError::ExpiredToken);
}

#[test]
fn sealed_keeps_the_token_and_hides_the_error() {
    assert_eq!(blog_core::token::sealed(Ok(String::from("a.b.c"))).unwrap(), "a.b.c");
    let key = jsonwebtoken::DecodingKey::from_secret(b"k");
    let rules = jsonwebtoken::Validation::new(jsonwebtoken::Algorithm::HS256);
    let error = jsonwebtoken::decode::<serde_json::Value>("x", &key, &rules).unwrap_err();
    assert_eq!(blog_core::token::sealed(Err(error)).unwrap_err(), AuthError::SigningFailure);
}

#[test]
fn issued_token_is_header_payload_signature() {
    let token = create_token(&sample(T0), SECRET).unwrap();
    let parts: Vec<&str> = token.split('.').collect();
    assert_eq!(parts.len(), 3);
    let key = jsonwebtoken::EncodingKey::from_secret(SECRET.as_bytes());
    let message = format!("{}.{}", parts[0], parts[1]);
    let signature =
        jsonwebtoken::crypto::sign(message.as_bytes(), &key, jsonwebtoken::Algorithm::HS256).unwrap();
    assert_eq!(parts[2], signature);
}

#[test]
fn a_dot_put_into_the_signature_is_rejected() {
    let token = create_token(&sample(T0), SECRET).unwrap();
    let cut = token.rfind('.').unwrap() + 1;
    for at in cut..token.len() {
        let mut bytes = token.clone().into_bytes();
        bytes[at] = b'.';
        let forged = String::from_utf8(bytes).unwrap();
        assert!(validate_token_at(&forged, SECRET, T0 + 1).is_err());
    }
}

#[test]
fn a_window_before_the_epoch_is_not_accepted_by_the_decoder() {
    let early = Claims::new_at(1, String::from("a"), String::from("user"), 1, -10_000);
    assert_eq!(early.exp, -6_400);
    let token = create_token(&early, SECRET).unwrap();
    let err = validate_token_at(&token, SECRET, -7_000).unwrap_err();
    assert_eq!(err, AuthError::MalformedToken);

    let edge = Claims::new_at(1, String::from("a"), String::from("user"), 1, -3_600);
    assert_eq!(edge.exp, 0);
    let token = create_token(&edge, SECRET).unwrap();
    assert_eq!(validate_token_at(&token, SECRET, -1).unwrap().exp, 0);
}

#[test]
fn a_token_comes_back_for_every_claim_set_and_secret() {
    for secret in ["", "k", "\u{0}", "\u{1F980} and more"] {
        for (iat, exp) in [(0, 1), (i64::MIN, i64::MAX), (-5, -4), (i64::MAX - 1, i64::MAX), (7, 7)] {
            let claims = Claims {
                sub: String::new(),
                exp,
                iat,
                role: String::from("\u{0}\"\\\u{7f}"),
                username: "x".repeat(50_000),
            };
            let token = create_token(&claims, secret).unwrap();
            let again = create_token(&claims.clone(), secret).unwrap();
            assert_eq!(token, again);
            let parts: Vec<&str> = token.split('.').collect();
            assert_eq!(parts.len(), 3);
            for part in parts {
                assert!(!part.is_empty());
                assert!(part.chars().all(|c| c.is_ascii_alphanumeric() || c == '-' || c == '_'));
            }
        }
    }
}

#[test]
fn the_payload_holds_the_five_claims_under_their_short_names() {
    let token = create_token(&sample(T0), SECRET).unwrap();
    let mut rules = jsonwebtoken::Validation::new(jsonwebtoken::Algorithm::HS256);
    rules.validate_exp = false;
    let key = jsonwebtoken::DecodingKey::from_secret(SECRET.as_bytes());
    let data = jsonwebtoken::decode::<serde_json::Value>(&token, &key, &rules).unwrap();
    let object = data.claims.as_object().unwrap();
    let mut names: Vec<&str> = object.keys().map(|k| k.as_str()).collect();
    names.sort();
    assert_eq!(names, vec!["exp", "iat", "role", "sub", "username"]);
    assert_eq!(object["sub"], "42");
    assert_eq!(object["role"], "user");
    assert_eq!(object["username"], "ada");
    assert_eq!(object["iat"].as_i64(), Some(T0));
    assert_eq!(object["exp"].as_i64(), Some(T0 + 24 * 3600));
}

#[test]
fn refresh_of_a_valid_token_always_yields_a_token_with_a_fresh_window() {
    let token = create_token(&sample(T0), SECRET).unwrap();
    for now in [T0, T0 + 3600, T0 + 24 * 3600 - 1] {
        let fresh = refresh_token_at(&token, SECRET, 24, now).unwrap();
        let seen = validate_token_at(&fresh, SECRET, now).unwrap();
        assert_eq!(seen.iat, now);
        assert_eq!(seen.exp, now + 86_400);
        assert_eq!((seen.sub.as_str(), seen.role.as_str(), seen.username.as_str()), ("42", "user", "ada"));
    }
}
