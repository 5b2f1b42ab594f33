use base64::Engine;
use libra::rustipy::authorization::{
    code_challenge, prepare_for_auth, prepare_for_auth_with, AuthorizationBuilder,
};
use libra::rustipy::config::AuthConfig;
use libra::utility::generate_random_string;

fn config() -> AuthConfig {
    AuthConfig { client_id: "cid".to_string(), redirect_uri: "http://localhost:8080".to_string() }
}

#[test]
fn random_string_is_alphanumeric() {
    let s = generate_random_string(64).unwrap();
    assert_eq!(s.chars().count(), 64);
    assert!(s.chars().all(|c| c.is_ascii_alphanumeric()));
    assert_eq!(generate_random_string(0).unwrap(), "");
}

#[test]
fn challenge_is_base64_of_hex_digest() {
    let hex = "2cf24dba5fb0a30e26e83b2ac5b9e29e1b161e5c1fa7425e73043362938b9824";
    let expected = base64::engine::general_purpose::STANDARD.encode(hex);
    let c = code_challenge("hello");
    assert_eq!(c, expected);
    assert_eq!(c.len(), 88);
    assert!(c.ends_with("=="));
    assert_ne!(c, "hello");
}

#[test]
fn builder_defaults() {
    let b = AuthorizationBuilder::default();
    assert_eq!(b.response_type, "code");
    assert_eq!(b.code_challenge_method, "S256");
    assert_eq!(b.client_id, "");
    assert_eq!(b.scope, "");
}

#[test]
fn request_is_prepared_from_the_verifier() {
    let b = prepare_for_auth_with(config(), Some("hello".to_string())).unwrap();
    assert_eq!(b.client_id, "cid");
    assert_eq!(b.redirect_uri, "http://localhost:8080");
    assert_eq!(b.scope, "user_read_private user_read_email");
    assert_eq!(b.code_challenge, code_challenge("hello"));
    let none = prepare_for_auth_with(config(), None).unwrap();
    assert_eq!(none.code_challenge, "Failed to generate the code challenge");
}

#[test]
fn fresh_request_has_a_full_challenge() {
    let b = prepare_for_auth(config()).unwrap();
    assert_eq!(b.code_challenge.len(), 88);
    assert!(b.code_challenge.ends_with("=="));
    assert_eq!(b.code_challenge_method, "S256");
    assert_eq!(b.client_id, "cid");
}
