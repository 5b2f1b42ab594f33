use libra::auth::{
    authorization_code, error_response, handle_connection, plan_access_token, success_response,
    CacheRead, ConnectionReply, TokenPlan,
};

#[test]
fn code_is_read_up_to_the_next_parameter() {
    let code = authorization_code("/riff?code=AQBx-9_z&state=abc");
    assert_eq!(code.as_deref(), Some("AQBx-9_z"));
}

#[test]
fn code_is_read_to_the_end() {
    assert_eq!(authorization_code("/riff?state=1&code=XYZ").as_deref(), Some("XYZ"));
}

#[test]
fn missing_code_gives_none() {
    assert_eq!(authorization_code("/riff?error=access_denied"), None);
    assert_eq!(authorization_code(""), None);
    assert_eq!(authorization_code("/riff?cod=1"), None);
}

#[test]
fn empty_code_is_empty() {
    assert_eq!(authorization_code("/riff?code=&state=1").as_deref(), Some(""));
    assert_eq!(authorization_code("code=").as_deref(), Some(""));
}

#[test]
fn code_stops_at_a_second_key() {
    assert_eq!(authorization_code("/r?code=ABcode=CD&x").as_deref(), Some("AB"));
}

#[test]
fn code_keeps_non_ascii_text() {
    assert_eq!(authorization_code("/ü?code=ñé&x=1").as_deref(), Some("ñé"));
}

#[test]
fn code_agrees_with_split() {
    for path in ["/a?code=1&b", "/a?x=code=2", "code=code=3", "&&code=&", "/?code=4&code=5", "no"] {
        let expected = path
            .split("code=")
            .nth(1)
            .and_then(|s| s.split('&').next())
            .map(|s| s.to_owned());
        assert_eq!(authorization_code(path), expected, "{}", path);
    }
}

fn request_buffer(text: &[u8]) -> Vec<u8> {
    let mut buffer = vec![0u8; 1000];
    buffer[..text.len()].copy_from_slice(text);
    buffer
}

#[test]
fn request_target_is_accepted() {
    let buffer = request_buffer(b"GET /riff?code=AB&state=1 HTTP/1.1\r\nHost: localhost\r\n\r\n");
    match handle_connection(&buffer) {
        ConnectionReply::Accepted(t) => assert_eq!(t, "/riff?code=AB&state=1"),
        other => panic!("unexpected {:?}", other),
    }
}

#[test]
fn request_words_split_on_any_white_space() {
    let buffer = "  GET\t\u{a0}/x\u{3000}HTTP".as_bytes();
    match handle_connection(buffer) {
        ConnectionReply::Accepted(t) => assert_eq!(t, "/x"),
        other => panic!("unexpected {:?}", other),
    }
}

#[test]
fn request_without_target_is_ignored() {
    assert!(matches!(handle_connection(&request_buffer(b"GET")), ConnectionReply::Ignored));
    assert!(matches!(handle_connection(b"   \r\n "), ConnectionReply::Ignored));
    assert!(matches!(handle_connection(&[]), ConnectionReply::Ignored));
}

#[test]
fn invalid_utf8_is_rejected_with_the_decoding_error() {
    let bytes = request_buffer(b"GET /\xff HTTP/1.1");
    let expected = format!(
        "Invalid UTF-8 sequence: {}",
        String::from_utf8(bytes.clone()).unwrap_err()
    );
    match handle_connection(&bytes) {
        ConnectionReply::Rejected(m) => assert_eq!(m, expected),
        other => panic!("unexpected {:?}", other),
    }
}

#[test]
fn responses_are_framed() {
    assert_eq!(success_response("<p>ok</p>"), "HTTP/1.1 200 OK\r\n\r\n<p>ok</p>");
    assert_eq!(
        error_response("bad"),
        "HTTP/1.1 400 Bad Request\r\n\r\n400 - Bad Request - bad"
    );
}

#[test]
fn token_plan_follows_the_cache() {
    assert_eq!(plan_access_token(&CacheRead::Fresh), TokenPlan::UseCached);
    assert_eq!(plan_access_token(&CacheRead::Expired), TokenPlan::RefreshCached);
    assert_eq!(plan_access_token(&CacheRead::Empty), TokenPlan::Authorize);
    assert_eq!(plan_access_token(&CacheRead::Unreadable), TokenPlan::Authorize);
}
