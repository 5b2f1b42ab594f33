use libra::rustipy::token::{
    cache_step, cache_step_at, token_from_response, token_from_response_at, token_request_body,
    AccessToken, AccessTokenResponse, CacheFile, CacheStep, Secrets,
};

fn response(expires_in: i64) -> AccessTokenResponse {
    AccessTokenResponse {
        access_token: "BQAq".to_string(),
        token_type: "Bearer".to_string(),
        expires_in,
    }
}

#[test]
fn default_token_is_empty_for_localhost() {
    let t = AccessToken::default();
    assert_eq!(t.access_token, "");
    assert_eq!(t.token_type, "");
    assert_eq!(t.redirect_uri, "http://localhost");
    assert_eq!(t.expires_in, 0);
    assert_eq!(t.expires_at, None);
}

#[test]
fn new_token_keeps_the_answer() {
    let t = AccessToken::new(response(3600));
    assert_eq!(t.get_access_token_string(), "BQAq");
    assert_eq!(t.token_type, "Bearer");
    assert_eq!(t.expires_in, 3600);
    assert_eq!(t.get_redirect_uri(), "http://localhost");
    assert_eq!(t.expires_at, None);
}

#[test]
fn setters_chain() {
    let mut t = AccessToken::default();
    t.set_access_token("a".to_string())
        .set_token_type("b".to_string())
        .set_redirect_uri("c".to_string())
        .set_expires_at_from(10);
    assert_eq!(t.access_token, "a");
    assert_eq!(t.token_type, "b");
    assert_eq!(t.redirect_uri, "c");
    assert_eq!(t.expires_at, Some(10));
}

#[test]
fn expiry_is_issue_time_plus_lifetime() {
    let t = token_from_response_at(response(3600), 1_700_000_000);
    assert_eq!(t.expires_at, Some(1_700_003_600));
    assert!(!t.expired_at(1_700_003_600));
    assert!(t.expired_at(1_700_003_601));
}

#[test]
fn cache_counts_a_token_expired_once_its_time_is_past() {
    let t = token_from_response_at(response(3600), 1_000);
    assert!(!t.check_if_expired_at(1_000));
    assert!(!t.check_if_expired_at(4_600));
    assert!(t.check_if_expired_at(4_601));
    assert!(t.check_if_expired_at(i64::MAX));
    assert!(!t.check_if_expired_at(i64::MIN));
}

#[test]
fn expired_token_is_stale() {
    let t = token_from_response_at(response(0), 500);
    assert!(t.expired_at(501));
    assert!(t.check_if_expired_at(501));
}

#[test]
fn token_without_expiry_never_expires() {
    assert!(!AccessToken::default().expired_at(i64::MAX));
}

#[test]
fn clock_stamp_is_recent() {
    let t = token_from_response(response(3600));
    let e = t.expires_at.unwrap();
    assert!(e - 3600 > 1_600_000_000);
    assert!(!t.expired());
    assert!(!t.check_if_expired());
}

#[test]
fn display_string_ends_with_a_space() {
    let t = AccessToken::new(response(3600));
    assert_eq!(t.to_display_string(), "BQAq Bearer 3600 ");
    let mut n = AccessToken::default();
    n.expires_in = i64::MIN;
    assert_eq!(n.to_display_string(), format!("  {} ", i64::MIN));
    n.expires_in = 0;
    assert_eq!(n.to_display_string(), "  0 ");
}

#[test]
fn request_body_carries_the_credentials() {
    let creds = Secrets { client_id: "id1".to_string(), client_secret: "s3cr".to_string() };
    assert_eq!(
        token_request_body(&creds),
        "grant_type=client_credentials&client_id=id1&client_secret=s3cr"
    );
}

#[test]
fn cache_step_per_file_state() {
    assert!(matches!(cache_step_at(CacheFile::Missing, 0), CacheStep::CreateAndRenew));
    assert!(matches!(cache_step_at(CacheFile::Unreadable, 0), CacheStep::Renew));
    let t = token_from_response_at(response(3600), 1_000);
    match cache_step_at(CacheFile::Parsed(t.clone()), 4_600) {
        CacheStep::Reuse(r) => assert_eq!(r.access_token, t.access_token),
        other => panic!("unexpected {:?}", other),
    }
    assert!(matches!(cache_step_at(CacheFile::Parsed(t.clone()), 4_601), CacheStep::Renew));
    assert!(matches!(cache_step_at(CacheFile::Parsed(t), i64::MAX), CacheStep::Renew));
}

#[test]
fn cache_step_by_the_clock() {
    let old = token_from_response_at(response(3600), 0);
    assert!(matches!(cache_step(CacheFile::Parsed(old)), CacheStep::Renew));
    let fresh = token_from_response(response(3600));
    assert!(matches!(cache_step(CacheFile::Parsed(fresh)), CacheStep::Reuse(_)));
}
