use session_gate::login::{login_outcome, LoginError, LoginReply, Token, TokenType};

fn token(access_token: &str) -> Option<Token> {
    Some(Token { access_token: String::from(access_token), token_type: TokenType::Bearer })
}

#[test]
fn issued_token_becomes_the_session_cookie() {
    let reply = LoginReply::Answered { status: 200, token: token("abc123") };
    assert_eq!(login_outcome(reply), Ok(String::from("jwt=abc123; Path=/; HttpOnly")));
}

#[test]
fn refused_credentials() {
    let reply = LoginReply::Answered { status: 401, token: None };
    let err = login_outcome(reply).unwrap_err();
    assert_eq!(err, LoginError::BadCredentials);
    assert_eq!(err.message(), "Bad username or password. Please correct it and try again.");
}

#[test]
fn unreadable_token_body() {
    let reply = LoginReply::Answered { status: 200, token: None };
    let err = login_outcome(reply).unwrap_err();
    assert_eq!(err, LoginError::ServiceFailure);
    assert_eq!(err.message(), "Whoops, there was problem. Please try again.");
}

#[test]
fn unreachable_token_endpoint() {
    let err = login_outcome(LoginReply::Unreachable(String::from("dns error"))).unwrap_err();
    assert_eq!(err, LoginError::ServiceFailure);
}

#[test]
fn token_illegal_in_a_header() {
    let reply = LoginReply::Answered { status: 200, token: token("abc\ndef") };
    let err = login_outcome(reply).unwrap_err();
    assert_eq!(err, LoginError::InvalidToken);
    assert_eq!(err.message(), "An unknown error occurred.");
}

#[test]
fn unexpected_status() {
    let reply = LoginReply::Answered { status: 500, token: token("abc") };
    let err = login_outcome(reply).unwrap_err();
    assert_eq!(err, LoginError::UnexpectedStatus(500));
    assert_eq!(err.message(), "An unknown error occurred.");
}
