use hess_core::auth::{
    authenticate, authenticate_with, bearer_token, identity_from_claims, identity_from_subject,
    resolve_identity,
};
use hess_core::identity::{id_from_parsing, validate_uuid};
use hess_core::jwt::{
    claims_at, claims_from_verification, generate_jwt_token, get_claims_from_jwt_token,
    token_from_signing, token_payload_at, JwtConfig, TokenClaims,
};
use hess_core::raw::{RawFieldValue, RawNumber};
use hess_core::response::{ApiErrorType, ApiResource};
use jsonwebtoken::{DecodingKey, EncodingKey};

const ID: u128 = 0x67e55044_10b1_426f_9247_bb680e5fe0c8;
const ID_TEXT: &str = "67e55044-10b1-426f-9247-bb680e5fe0c8";

fn config(secret: &[u8], expire_in_hours: i64) -> JwtConfig {
    JwtConfig {
        private_key: EncodingKey::from_secret(secret),
        public_key: DecodingKey::from_secret(secret),
        expire_in_hours,
    }
}

fn now() -> usize {
    std::time::SystemTime::now().duration_since(std::time::UNIX_EPOCH).unwrap().as_secs() as usize
}

fn header(token: &str) -> Option<String> {
    Some(format!("Bearer {}", token))
}

fn sign(subject: serde_json::Value, exp: serde_json::Value, secret: &[u8]) -> String {
    let mut claims = serde_json::Map::new();
    claims.insert("sub".to_string(), subject);
    claims.insert("exp".to_string(), exp);
    claims.insert("iat".to_string(), serde_json::Value::from(now()));
    jsonwebtoken::encode(
        &jsonwebtoken::Header::default(),
        &claims,
        &EncodingKey::from_secret(secret),
    )
    .unwrap()
}

#[test]
fn path_parameter_is_read_as_an_identity_key() {
    assert_eq!(validate_uuid(ID_TEXT.to_string(), ApiResource::Users), Ok(ID));
    assert_eq!(
        validate_uuid("67E5504410B1426F9247BB680E5FE0C8".to_string(), ApiResource::Users),
        Ok(ID)
    );
    assert_eq!(
        validate_uuid("00000000-0000-0000-0000-000000000001".to_string(), ApiResource::Users),
        Ok(1)
    );
}

#[test]
fn path_parameter_that_is_no_uuid_names_the_resource() {
    for (text, resource) in [
        ("", ApiResource::Users),
        ("42", ApiResource::Followers),
        ("67e55044-10b1-426f-9247-bb680e5fe0c", ApiResource::BlockerUsers),
        ("67e55044-10b1-426f-9247-bb680e5fe0cg", ApiResource::PasswordResetToken),
    ] {
        assert_eq!(
            validate_uuid(text.to_string(), resource),
            Err(ApiErrorType::InvalidIdParam(resource))
        );
    }
}

#[test]
fn parsed_path_parameter_decides_the_answer() {
    assert_eq!(id_from_parsing(Some(7), ApiResource::Users), Ok(7));
    assert_eq!(
        id_from_parsing(None, ApiResource::UserConfirmationToken),
        Err(ApiErrorType::InvalidIdParam(ApiResource::UserConfirmationToken))
    );
}

#[test]
fn claims_end_after_the_configured_hours() {
    let claims = claims_at("s".to_string(), 1_700_000_000, 24).unwrap();
    assert_eq!(
        claims,
        TokenClaims { sub: "s".to_string(), exp: 1_700_086_400, iat: 1_700_000_000 }
    );
    let at_once = claims_at("s".to_string(), 5, 0).unwrap();
    assert_eq!((at_once.iat, at_once.exp), (5, 5));
    let past = claims_at("s".to_string(), 10_000, -2).unwrap();
    assert_eq!((past.iat, past.exp), (10_000, 2_800));
}

#[test]
fn claims_need_times_that_they_can_hold() {
    assert_eq!(claims_at("s".to_string(), -1, 1), None);
    assert_eq!(claims_at("s".to_string(), 3_599, -1), None);
    assert_eq!(claims_at("s".to_string(), 3_600, -1).map(|c| c.exp), Some(0));
    assert_eq!(claims_at("s".to_string(), 0, i64::MIN), None);
    assert_eq!(claims_at("s".to_string(), i64::MAX, i64::MAX), None);
}

#[test]
fn payload_carries_the_three_claims() {
    let claims = TokenClaims { sub: ID_TEXT.to_string(), exp: 20, iat: 10 };
    assert_eq!(
        claims.to_payload(),
        RawFieldValue::Object(vec![
            ("sub".to_string(), RawFieldValue::String(ID_TEXT.to_string())),
            ("exp".to_string(), RawFieldValue::Number(RawNumber::Unsigned(20))),
            ("iat".to_string(), RawFieldValue::Number(RawNumber::Unsigned(10))),
        ])
    );
    assert_eq!(TokenClaims::from_payload(claims.to_payload()), Some(claims));
}

#[test]
fn payload_is_read_whatever_else_it_holds() {
    let payload = RawFieldValue::Object(vec![
        ("iss".to_string(), RawFieldValue::String("hess".to_string())),
        ("iat".to_string(), RawFieldValue::Number(RawNumber::Unsigned(1))),
        ("exp".to_string(), RawFieldValue::Number(RawNumber::Unsigned(2))),
        ("sub".to_string(), RawFieldValue::String("x".to_string())),
    ]);
    assert_eq!(
        TokenClaims::from_payload(payload),
        Some(TokenClaims { sub: "x".to_string(), exp: 2, iat: 1 })
    );
}

#[test]
fn payload_without_the_three_claims_holds_none() {
    let sub = ("sub".to_string(), RawFieldValue::String("x".to_string()));
    let exp = ("exp".to_string(), RawFieldValue::Number(RawNumber::Unsigned(2)));
    let iat = ("iat".to_string(), RawFieldValue::Number(RawNumber::Unsigned(1)));
    let payloads = vec![
        RawFieldValue::Object(vec![sub.clone(), exp.clone()]),
        RawFieldValue::Object(vec![sub.clone(), iat.clone()]),
        RawFieldValue::Object(vec![exp.clone(), iat.clone()]),
        RawFieldValue::Object(vec![
            ("sub".to_string(), RawFieldValue::Number(RawNumber::Unsigned(3))),
            exp.clone(),
            iat.clone(),
        ]),
        RawFieldValue::Object(vec![
            sub.clone(),
            ("exp".to_string(), RawFieldValue::Number(RawNumber::Negative(-2))),
            iat.clone(),
        ]),
        RawFieldValue::Object(vec![
            sub.clone(),
            exp.clone(),
            ("iat".to_string(), RawFieldValue::Number(RawNumber::Real("1.5".to_string()))),
        ]),
        RawFieldValue::Object(vec![
            sub.clone(),
            exp.clone(),
            ("iat".to_string(), RawFieldValue::String("1".to_string())),
        ]),
        RawFieldValue::Array(vec![]),
        RawFieldValue::Null,
    ];
    for payload in payloads {
        assert_eq!(TokenClaims::from_payload(payload), None);
    }
}

#[test]
fn issued_token_is_read_back() {
    let config = config(b"secret", 2);
    let before = now();
    let token = generate_jwt_token(ID, &config).unwrap();
    let after = now();
    assert_eq!(token.split('.').count(), 3);
    let claims = get_claims_from_jwt_token(&token, &config).unwrap();
    assert_eq!(claims.sub, ID_TEXT);
    assert!(before <= claims.iat && claims.iat <= after);
    assert_eq!(claims.exp, claims.iat + 7200);
}

#[test]
fn issued_token_carries_its_claims_in_the_order_of_the_payload() {
    let config = config(b"secret", 1);
    let token = generate_jwt_token(1, &config).unwrap();
    let mut validation = jsonwebtoken::Validation::default();
    validation.insecure_disable_signature_validation();
    let data = jsonwebtoken::decode::<serde_json::Map<String, serde_json::Value>>(
        &token,
        &config.public_key,
        &validation,
    )
    .unwrap();
    let keys: Vec<&String> = data.claims.keys().collect();
    assert_eq!(keys, vec!["sub", "exp", "iat"]);
    assert_eq!(
        data.claims.get("sub").and_then(|v| v.as_str()),
        Some("00000000-0000-0000-0000-000000000001")
    );
    assert_eq!(data.header.alg, jsonwebtoken::Algorithm::HS256);
}

#[test]
fn token_of_another_key_is_not_read() {
    let token = generate_jwt_token(ID, &config(b"secret", 2)).unwrap();
    assert_eq!(get_claims_from_jwt_token(&token, &config(b"other", 2)), None);
}

#[test]
fn ended_token_is_not_read() {
    let token = generate_jwt_token(ID, &config(b"secret", -1)).unwrap();
    assert_eq!(get_claims_from_jwt_token(&token, &config(b"secret", 2)), None);
}

#[test]
fn text_that_is_no_token_is_not_read() {
    let config = config(b"secret", 2);
    for text in ["", "xyz", "a.b.c", "Bearer abc"] {
        assert_eq!(get_claims_from_jwt_token(&text.to_string(), &config), None);
    }
}

#[test]
fn token_needs_integer_times() {
    let config = config(b"secret", 2);
    let later = now() + 1000;
    let whole = sign(serde_json::Value::from(ID_TEXT), serde_json::Value::from(later), b"secret");
    assert_eq!(get_claims_from_jwt_token(&whole, &config).map(|c| c.exp), Some(later));
    let fraction = sign(
        serde_json::Value::from(ID_TEXT),
        serde_json::Value::from(later as f64 + 0.5),
        b"secret",
    );
    assert_eq!(get_claims_from_jwt_token(&fraction, &config), None);
    let text_time = sign(
        serde_json::Value::from(ID_TEXT),
        serde_json::Value::from(later.to_string()),
        b"secret",
    );
    assert_eq!(get_claims_from_jwt_token(&text_time, &config), None);
}

#[test]
fn key_that_does_not_sign_is_an_internal_error() {
    let rsa_like = JwtConfig {
        private_key: EncodingKey::from_rsa_der(b"not a key"),
        public_key: DecodingKey::from_secret(b"secret"),
        expire_in_hours: 1,
    };
    assert_eq!(generate_jwt_token(ID, &rsa_like), Err(ApiErrorType::InternalServerError));
}

#[test]
fn signing_outcome_decides_the_answer() {
    assert_eq!(token_from_signing(Ok("t".to_string())), Ok("t".to_string()));
    let failure = jsonwebtoken::decode_header("x").unwrap_err();
    assert_eq!(token_from_signing(Err(failure)), Err(ApiErrorType::InternalServerError));
}

#[test]
fn verification_outcome_decides_the_claims() {
    let payload = TokenClaims { sub: "s".to_string(), exp: 2, iat: 1 }.to_payload();
    assert_eq!(
        claims_from_verification(Ok(payload)),
        Some(TokenClaims { sub: "s".to_string(), exp: 2, iat: 1 })
    );
    assert_eq!(claims_from_verification(Ok(RawFieldValue::Null)), None);
    let failure = jsonwebtoken::decode_header("x").unwrap_err();
    assert_eq!(claims_from_verification(Err(failure)), None);
}

#[test]
fn request_without_a_header_is_not_logged_in() {
    assert_eq!(bearer_token(&None), Err(ApiErrorType::NotLoggedIn));
    assert_eq!(authenticate(&None, &config(b"secret", 2)), Err(ApiErrorType::NotLoggedIn));
}

#[test]
fn header_of_another_form_is_not_logged_in() {
    let config = config(b"secret", 2);
    for text in ["Token xyz", "", "Bearer", "bearer xyz", "Bearerxyz", " Bearer xyz", "Basic abc"] {
        let header = Some(text.to_string());
        assert_eq!(bearer_token(&header), Err(ApiErrorType::NotLoggedIn), "{:?}", text);
        assert_eq!(authenticate(&header, &config), Err(ApiErrorType::NotLoggedIn), "{:?}", text);
    }
}

#[test]
fn bearer_header_carries_what_follows_the_prefix() {
    assert_eq!(bearer_token(&Some("Bearer xyz".to_string())), Ok("xyz".to_string()));
    assert_eq!(bearer_token(&Some("Bearer ".to_string())), Ok(String::new()));
    assert_eq!(bearer_token(&Some("Bearer  a b".to_string())), Ok(" a b".to_string()));
    assert_eq!(
        bearer_token(&Some("Bearer \u{e9}\u{4e16}".to_string())),
        Ok("\u{e9}\u{4e16}".to_string())
    );
}

#[test]
fn valid_token_names_its_identity() {
    let config = config(b"secret", 2);
    let token = generate_jwt_token(ID, &config).unwrap();
    assert_eq!(authenticate(&header(&token), &config), Ok(ID));
}

#[test]
fn tampered_token_is_invalid() {
    let config = config(b"secret", 2);
    let token = generate_jwt_token(ID, &config).unwrap();
    let last = token.chars().last().unwrap();
    let other = if last == 'A' { 'B' } else { 'A' };
    let mut tampered = token[..token.len() - 1].to_string();
    tampered.push(other);
    assert_eq!(authenticate(&header(&tampered), &config), Err(ApiErrorType::InvalidJwtToken));

    let parts: Vec<&str> = token.split('.').collect();
    let forged = sign(
        serde_json::Value::from("00000000-0000-0000-0000-000000000002"),
        serde_json::Value::from(now() + 1000),
        b"secret",
    );
    let forged_parts: Vec<&str> = forged.split('.').collect();
    let spliced = format!("{}.{}.{}", parts[0], forged_parts[1], parts[2]);
    assert_eq!(authenticate(&header(&spliced), &config), Err(ApiErrorType::InvalidJwtToken));
}

#[test]
fn ended_token_is_invalid() {
    let token = generate_jwt_token(ID, &config(b"secret", -1)).unwrap();
    assert_eq!(
        authenticate(&header(&token), &config(b"secret", 2)),
        Err(ApiErrorType::InvalidJwtToken)
    );
}

#[test]
fn empty_token_is_invalid() {
    assert_eq!(
        authenticate(&Some("Bearer ".to_string()), &config(b"secret", 2)),
        Err(ApiErrorType::InvalidJwtToken)
    );
}

#[test]
fn token_whose_subject_is_no_identity_key_is_an_internal_error() {
    let token = sign(
        serde_json::Value::from("not-a-uuid"),
        serde_json::Value::from(now() + 1000),
        b"secret",
    );
    assert_eq!(
        authenticate(&header(&token), &config(b"secret", 2)),
        Err(ApiErrorType::InternalServerError)
    );
}

#[test]
fn claims_decide_the_identity() {
    assert_eq!(identity_from_claims(None), Err(ApiErrorType::InvalidJwtToken));
    assert_eq!(
        identity_from_claims(Some(TokenClaims { sub: ID_TEXT.to_string(), exp: 0, iat: 0 })),
        Ok(ID)
    );
    assert_eq!(
        identity_from_claims(Some(TokenClaims { sub: "me".to_string(), exp: 0, iat: 0 })),
        Err(ApiErrorType::InternalServerError)
    );
    assert_eq!(identity_from_subject(Some(9)), Ok(9));
    assert_eq!(identity_from_subject(None), Err(ApiErrorType::InternalServerError));
}

#[test]
fn unknown_identity_is_answered_as_an_invalid_token() {
    let found: Result<&str, ApiErrorType> = Ok("ada");
    assert_eq!(resolve_identity(found), Ok("ada"));
    for failure in [
        ApiErrorType::ResourceNotFound(ApiResource::Users),
        ApiErrorType::InternalServerError,
        ApiErrorType::Unauthorized,
    ] {
        let missing: Result<&str, ApiErrorType> = Err(failure);
        assert_eq!(resolve_identity(missing), Err(ApiErrorType::InvalidJwtToken));
    }
    assert_eq!(
        ApiErrorType::InvalidJwtToken.code(),
        resolve_identity::<u8>(Err(ApiErrorType::ResourceNotFound(ApiResource::Users)))
            .unwrap_err()
            .code()
    );
}

fn lookup(id: u128) -> Result<&'static str, ApiErrorType> {
    if id == ID {
        Ok("ada")
    } else {
        Err(ApiErrorType::ResourceNotFound(ApiResource::Users))
    }
}

#[test]
fn known_identity_is_let_through() {
    let config = config(b"secret", 2);
    let token = generate_jwt_token(ID, &config).unwrap();
    assert_eq!(authenticate_with(&header(&token), &config, lookup), Ok("ada"));
}

#[test]
fn valid_token_of_an_unknown_identity_is_invalid() {
    let config = config(b"secret", 2);
    let token = generate_jwt_token(ID + 1, &config).unwrap();
    assert_eq!(authenticate(&header(&token), &config), Ok(ID + 1));
    assert_eq!(
        authenticate_with(&header(&token), &config, lookup),
        Err(ApiErrorType::InvalidJwtToken)
    );
}

#[test]
fn lookup_is_not_asked_without_a_valid_token() {
    let config = config(b"secret", 2);
    let never = |_: u128| -> Result<u8, ApiErrorType> { panic!("looked up") };
    assert_eq!(authenticate_with(&None, &config, never), Err(ApiErrorType::NotLoggedIn));
    assert_eq!(
        authenticate_with(&Some("Token xyz".to_string()), &config, never),
        Err(ApiErrorType::NotLoggedIn)
    );
    assert_eq!(
        authenticate_with(&header("a.b.c"), &config, never),
        Err(ApiErrorType::InvalidJwtToken)
    );
    let ended = generate_jwt_token(ID, &self::config(b"secret", -1)).unwrap();
    assert_eq!(
        authenticate_with(&header(&ended), &config, never),
        Err(ApiErrorType::InvalidJwtToken)
    );
}

#[test]
fn issued_payload_names_the_identity_as_a_uuid() {
    assert_eq!(
        token_payload_at(ID, 1_000, 1),
        Some(RawFieldValue::Object(vec![
            ("sub".to_string(), RawFieldValue::String(ID_TEXT.to_string())),
            ("exp".to_string(), RawFieldValue::Number(RawNumber::Unsigned(4_600))),
            ("iat".to_string(), RawFieldValue::Number(RawNumber::Unsigned(1_000))),
        ]))
    );
    assert_eq!(
        token_payload_at(0, 0, 0).and_then(TokenClaims::from_payload).map(|c| c.sub),
        Some("00000000-0000-0000-0000-000000000000".to_string())
    );
    assert_eq!(
        token_payload_at(u128::MAX, 0, 0).and_then(TokenClaims::from_payload).map(|c| c.sub),
        Some("ffffffff-ffff-ffff-ffff-ffffffffffff".to_string())
    );
    assert_eq!(token_payload_at(ID, -1, 1), None);
}

#[test]
fn issued_token_begins_with_the_text_that_was_signed() {
    let config = config(b"secret", 3);
    let token = generate_jwt_token(ID, &config).unwrap();
    let claims = get_claims_from_jwt_token(&token, &config).unwrap();

    let mut same_claims = serde_json::Map::new();
    same_claims.insert("sub".to_string(), serde_json::Value::from(ID_TEXT));
    same_claims.insert("exp".to_string(), serde_json::Value::from(claims.exp));
    same_claims.insert("iat".to_string(), serde_json::Value::from(claims.iat));
    let other_key = jsonwebtoken::encode(
        &jsonwebtoken::Header::default(),
        &same_claims,
        &EncodingKey::from_secret(b"another secret"),
    )
    .unwrap();

    let signed_text = |token: &str| token.rsplitn(2, '.').nth(1).unwrap().to_string();
    let signature = |token: &str| token.rsplitn(2, '.').next().unwrap().to_string();
    assert_eq!(signed_text(&token), signed_text(&other_key));
    assert_ne!(signature(&token), signature(&other_key));
    assert_eq!(token, format!("{}.{}", signed_text(&token), signature(&token)));
    assert!(!signature(&token).is_empty());
}

#[test]
fn claims_that_are_read_are_those_of_the_token_text() {
    let config = config(b"secret", 3);
    let token = generate_jwt_token(ID, &config).unwrap();
    let claims = get_claims_from_jwt_token(&token, &config).unwrap();

    let mut validation = jsonwebtoken::Validation::default();
    validation.insecure_disable_signature_validation();
    let text_only = jsonwebtoken::decode::<serde_json::Value>(
        &token,
        &DecodingKey::from_secret(b"any key"),
        &validation,
    )
    .unwrap()
    .claims;
    assert_eq!(text_only.get("sub").and_then(|v| v.as_str()), Some(claims.sub.as_str()));
    assert_eq!(text_only.get("exp").and_then(|v| v.as_u64()), Some(claims.exp as u64));
    assert_eq!(text_only.get("iat").and_then(|v| v.as_u64()), Some(claims.iat as u64));
    assert_eq!(claims.exp, claims.iat + 3 * 3600);
}

#[test]
fn window_that_no_time_can_hold_is_an_internal_error() {
    assert_eq!(
        generate_jwt_token(ID, &config(b"secret", i64::MIN)),
        Err(ApiErrorType::InternalServerError)
    );
    assert_eq!(
        generate_jwt_token(ID, &config(b"secret", i64::MAX)),
        Err(ApiErrorType::InternalServerError)
    );
}

#[test]
fn each_token_names_the_identity_it_was_issued_to() {
    let config = config(b"secret", 2);
    for id in [0u128, 1, ID, ID + 1, u128::MAX] {
        let token = generate_jwt_token(id, &config).unwrap();
        assert_eq!(authenticate(&header(&token), &config), Ok(id));
        assert_eq!(
            get_claims_from_jwt_token(&token, &config)
                .and_then(|claims| validate_uuid(claims.sub, ApiResource::Users).ok()),
            Some(id)
        );
    }
}

#[test]
fn lookup_is_asked_for_the_identity_of_the_token() {
    let config = config(b"secret", 2);
    for id in [0u128, 7, ID, u128::MAX] {
        let token = generate_jwt_token(id, &config).unwrap();
        let echo = |asked: u128| -> Result<u128, ApiErrorType> { Ok(asked) };
        assert_eq!(authenticate_with(&header(&token), &config, echo), Ok(id));
    }
}
