use session_gate::cookie::{get_cookie_value, get_token, CookieError};

fn headers(values: &[&[u8]]) -> Vec<Vec<u8>> {
    values.iter().map(|v| v.to_vec()).collect()
}

#[test]
fn finds_a_single_cookie() {
    assert_eq!(get_cookie_value("jwt=abc123", "jwt"), Some(String::from("abc123")));
}

#[test]
fn finds_a_cookie_among_others() {
    assert_eq!(
        get_cookie_value("theme=dark; jwt=abc123; lang=en", "jwt"),
        Some(String::from("abc123"))
    );
}

#[test]
fn first_binding_wins() {
    assert_eq!(get_cookie_value("jwt=first; jwt=second", "jwt"), Some(String::from("first")));
}

#[test]
fn empty_value_does_not_match() {
    assert_eq!(get_cookie_value("jwt=; other=1", "jwt"), None);
    assert_eq!(get_cookie_value("jwt=   ; jwt=later", "jwt"), Some(String::from("later")));
}

#[test]
fn key_is_trimmed_value_is_kept_as_written() {
    assert_eq!(get_cookie_value("a=1;  jwt = tok ", "jwt"), Some(String::from(" tok ")));
}

#[test]
fn value_may_hold_equals_signs() {
    assert_eq!(get_cookie_value("jwt=a=b==", "jwt"), Some(String::from("a=b==")));
}

#[test]
fn missing_key_is_none() {
    assert_eq!(get_cookie_value("session=1; jwtx=2; xjwt=3", "jwt"), None);
    assert_eq!(get_cookie_value("", "jwt"), None);
    assert_eq!(get_cookie_value("jwt", "jwt"), None);
}

#[test]
fn token_absent_from_no_headers() {
    assert_eq!(get_token(&Vec::new()), Ok(None));
}

#[test]
fn token_from_later_header() {
    let h = headers(&[b"theme=dark", b"a=1; jwt=abc123"]);
    assert_eq!(get_token(&h), Ok(Some(String::from("abc123"))));
}

#[test]
fn token_from_first_header_that_binds_it() {
    let h = headers(&[b"jwt=one", b"jwt=two"]);
    assert_eq!(get_token(&h), Ok(Some(String::from("one"))));
}

#[test]
fn unreadable_header_is_an_error() {
    let h = headers(&[b"theme=dark", b"jwt=caf\xc3\xa9"]);
    assert_eq!(get_token(&h), Err(CookieError::UnreadableHeader));
    let h = headers(&[b"jwt=a\nb"]);
    assert_eq!(get_token(&h), Err(CookieError::UnreadableHeader));
}

#[test]
fn header_after_a_match_is_not_read() {
    let h = headers(&[b"jwt=abc", b"\xff"]);
    assert_eq!(get_token(&h), Ok(Some(String::from("abc"))));
}

#[test]
fn tabs_are_header_text() {
    let h = headers(&[b"x=1;\tjwt=abc"]);
    assert_eq!(get_token(&h), Ok(Some(String::from("abc"))));
}
