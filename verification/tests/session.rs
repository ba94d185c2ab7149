use base64::Engine;
use jsonwebtoken::{encode, Algorithm, EncodingKey, Header};
use p384::ecdsa::signature::Signer;
use polyumi_auth::error::ErrorModelKind;
use polyumi_auth::session::{get_session_from_jwt_token, SessionModel, SessionOption, SessionStore};

const KEY: &[u8] = b"process-wide-signing-key";

fn mint(claims: serde_json::Value, key: &[u8]) -> String {
    encode(&Header::new(Algorithm::HS256), &claims, &EncodingKey::from_secret(key)).unwrap()
}

fn subject_claims(sub: &str) -> serde_json::Value {
    let mut map = serde_json::Map::new();
    map.insert("sub".to_string(), serde_json::Value::String(sub.to_string()));
    serde_json::Value::Object(map)
}

#[test]
fn session_round_trip() {
    let user = uuid::Uuid::new_v4();
    let token = mint(subject_claims(&user.to_string()), KEY);
    let session = get_session_from_jwt_token(&token, KEY).unwrap();
    assert_eq!(session.user_id.value, user.as_bytes().to_vec());
    assert!(session.public_key.is_none());
}

#[test]
fn store_memoizes_resolutions() {
    let user = uuid::Uuid::new_v4();
    let token = mint(subject_claims(&user.to_string()), KEY);
    let mut store = SessionStore::new(KEY.to_vec());
    let first_id = store.resolve(&token).unwrap().user_id.value.clone();
    let second_id = store.resolve(&token).unwrap().user_id.value.clone();
    assert_eq!(first_id, user.as_bytes().to_vec());
    assert_eq!(second_id, user.as_bytes().to_vec());
    store.invalidate(&token);
    let third_id = store.resolve(&token).unwrap().user_id.value.clone();
    assert_eq!(third_id, user.as_bytes().to_vec());
}

#[test]
fn signature_tamper_rejected_at_every_byte() {
    let user = uuid::Uuid::new_v4();
    let token = mint(subject_claims(&user.to_string()), KEY);
    let dot = token.rfind('.').unwrap();
    for i in (dot + 1)..token.len() {
        let mut bytes = token.as_bytes().to_vec();
        // Stay within ASCII so the tampered token is still a string.
        bytes[i] ^= 0x01;
        let tampered = String::from_utf8(bytes).unwrap();
        assert!(
            matches!(
                get_session_from_jwt_token(&tampered, KEY).unwrap_err().error,
                ErrorModelKind::InvalidCredentials
            ),
            "byte {i} flipped but token still accepted"
        );
        // Turning the byte into a dot changes the segment structure.
        let mut bytes = token.as_bytes().to_vec();
        bytes[i] = b'.';
        let dotted = String::from_utf8(bytes).unwrap();
        assert!(get_session_from_jwt_token(&dotted, KEY).is_err());
    }
}

#[test]
fn payload_tamper_rejected() {
    let user = uuid::Uuid::new_v4();
    let token = mint(subject_claims(&user.to_string()), KEY);
    let first_dot = token.find('.').unwrap();
    let last_dot = token.rfind('.').unwrap();
    // Any flipped byte of header or payload breaks the tag over them.
    for i in (0..first_dot).chain((first_dot + 1)..last_dot) {
        let mut bytes = token.as_bytes().to_vec();
        bytes[i] ^= 0x01;
        let tampered = String::from_utf8(bytes).unwrap();
        assert!(
            get_session_from_jwt_token(&tampered, KEY).is_err(),
            "byte {i} flipped but token still accepted"
        );
    }
}

#[test]
fn absent_session_is_missing_credentials() {
    let user = uuid::Uuid::new_v4();
    let id = polyumi_auth::id::Id::new(user.as_bytes().to_vec());
    let session = SessionModel::new(id, None).unwrap();
    let present = SessionOption { inner: Some(&session) };
    assert!(present.required().is_ok());
    let absent = SessionOption { inner: None };
    let e = absent.required().unwrap_err();
    assert!(matches!(e.error, ErrorModelKind::MissingCredentials));
    assert_eq!(e.status_code(), 401);
}

#[test]
fn wrong_key_rejected() {
    let user = uuid::Uuid::new_v4();
    let token = mint(subject_claims(&user.to_string()), b"some-other-key");
    assert!(get_session_from_jwt_token(&token, KEY).is_err());
}

#[test]
fn malformed_tokens_rejected() {
    for bad in [
        "",
        "onlyonesegment",
        "two.segments",
        "three.dots.in.token",
        "!!!.???.###",
        "e30.e30.e30",
    ] {
        assert!(
            matches!(
                get_session_from_jwt_token(bad, KEY).unwrap_err().error,
                ErrorModelKind::InvalidCredentials
            ),
            "accepted: {bad}"
        );
    }
}

#[test]
fn missing_subject_rejected() {
    let token = mint(serde_json::Value::Object(serde_json::Map::new()), KEY);
    assert!(get_session_from_jwt_token(&token, KEY).is_err());
    let mut map = serde_json::Map::new();
    map.insert("sub".to_string(), serde_json::Value::String("not-a-uuid".to_string()));
    let token = mint(serde_json::Value::Object(map), KEY);
    assert!(get_session_from_jwt_token(&token, KEY).is_err());
    let mut map = serde_json::Map::new();
    map.insert("sub".to_string(), serde_json::Value::Bool(true));
    let token = mint(serde_json::Value::Object(map), KEY);
    assert!(get_session_from_jwt_token(&token, KEY).is_err());
}

#[test]
fn wrong_algorithm_rejected() {
    let user = uuid::Uuid::new_v4();
    let token = mint(subject_claims(&user.to_string()), KEY);
    // Re-sign the same payload under an HS384 header with the same key: the
    // header no longer names HS256, so the token must be rejected.
    let token384 = encode(
        &Header::new(Algorithm::HS384),
        &subject_claims(&user.to_string()),
        &EncodingKey::from_secret(KEY),
    )
    .unwrap();
    assert!(get_session_from_jwt_token(&token, KEY).is_ok());
    assert!(get_session_from_jwt_token(&token384, KEY).is_err());
}

fn device_key_pair() -> (p384::ecdsa::SigningKey, String) {
    let signing = p384::ecdsa::SigningKey::random(&mut rand::thread_rng());
    let point = signing.verifying_key().to_encoded_point(false);
    let encoded = base64::engine::general_purpose::STANDARD.encode(point.as_bytes());
    (signing, encoded)
}

#[test]
fn device_key_decoded_into_session() {
    let user = uuid::Uuid::new_v4();
    let (_, encoded_key) = device_key_pair();
    let mut map = serde_json::Map::new();
    map.insert("sub".to_string(), serde_json::Value::String(user.to_string()));
    map.insert("device_public_key".to_string(), serde_json::Value::String(encoded_key.clone()));
    let token = mint(serde_json::Value::Object(map), KEY);
    let session = get_session_from_jwt_token(&token, KEY).unwrap();
    let stored = session.public_key.as_ref().unwrap();
    let decoded = base64::engine::general_purpose::STANDARD.decode(&encoded_key).unwrap();
    assert_eq!(*stored, decoded);
}

#[test]
fn invalid_device_key_is_a_hard_failure() {
    let user = uuid::Uuid::new_v4();
    let mut map = serde_json::Map::new();
    map.insert("sub".to_string(), serde_json::Value::String(user.to_string()));
    map.insert("device_public_key".to_string(), serde_json::Value::String("@@@@".to_string()));
    let token = mint(serde_json::Value::Object(map), KEY);
    assert!(matches!(
        get_session_from_jwt_token(&token, KEY).unwrap_err().error,
        ErrorModelKind::InvalidCredentials
    ));
    // Valid base64 that is not an elliptic-curve point fails just as hard.
    let mut map = serde_json::Map::new();
    map.insert("sub".to_string(), serde_json::Value::String(user.to_string()));
    map.insert(
        "device_public_key".to_string(),
        serde_json::Value::String(
            base64::engine::general_purpose::STANDARD.encode(b"not a point"),
        ),
    );
    let token = mint(serde_json::Value::Object(map), KEY);
    assert!(matches!(
        get_session_from_jwt_token(&token, KEY).unwrap_err().error,
        ErrorModelKind::InvalidCredentials
    ));
}

fn session_with_key(signing: &p384::ecdsa::SigningKey) -> SessionModel {
    let user = uuid::Uuid::new_v4();
    let point = signing.verifying_key().to_encoded_point(false);
    let encoded = base64::engine::general_purpose::STANDARD.encode(point.as_bytes());
    let id = polyumi_auth::id::Id::new(user.as_bytes().to_vec());
    SessionModel::new(id, Some(encoded.into_bytes())).unwrap()
}

fn sign_request(signing: &p384::ecdsa::SigningKey, method: &str, path: &str, body: &[u8]) -> String {
    let body64 = base64::engine::general_purpose::STANDARD.encode(body);
    let data = format!("{method} {path};{body64}");
    let signature: p384::ecdsa::Signature = signing.sign(data.as_bytes());
    base64::engine::general_purpose::STANDARD.encode(signature.to_bytes())
}

#[test]
fn request_signature_accepted_for_exact_triple() {
    let signing = p384::ecdsa::SigningKey::random(&mut rand::thread_rng());
    let session = session_with_key(&signing);
    let body = b"{\"hello\":\"world\"}";
    let header = sign_request(&signing, "POST", "/v1/foo", body);
    assert!(session.verify_request("POST", "/v1/foo", body, Some(&header)).is_ok());
    // Any one altered element of the triple invalidates the signature.
    let r = session.verify_request("PATCH", "/v1/foo", body, Some(&header));
    assert!(matches!(r.unwrap_err().error, ErrorModelKind::InvalidSignature));
    let r = session.verify_request("POST", "/v1/bar", body, Some(&header));
    assert!(matches!(r.unwrap_err().error, ErrorModelKind::InvalidSignature));
    let r = session.verify_request("POST", "/v1/foo", b"{}", Some(&header));
    assert!(matches!(r.unwrap_err().error, ErrorModelKind::InvalidSignature));
}

#[test]
fn request_signature_opt_in_and_required() {
    let user = uuid::Uuid::new_v4();
    let id = polyumi_auth::id::Id::new(user.as_bytes().to_vec());
    let without_key = SessionModel::new(id, None).unwrap();
    // No enrolled key: success without any header.
    assert!(without_key.verify_request("GET", "/v1/foo", b"", None).is_ok());

    let signing = p384::ecdsa::SigningKey::random(&mut rand::thread_rng());
    let session = session_with_key(&signing);
    let r = session.verify_request("GET", "/v1/foo", b"", None);
    assert!(matches!(r.unwrap_err().error, ErrorModelKind::MissingSignature));
    let r = session.verify_request("GET", "/v1/foo", b"", Some("not base64 @@@"));
    assert!(matches!(r.unwrap_err().error, ErrorModelKind::InvalidSignature));
}
