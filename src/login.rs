//! The login exchange: turning the token endpoint's reply into the
//! `Set-Cookie` value that installs the session, or a user-facing error.
use vstd::prelude::*;

use crate::forge::{is_header_value, session_cookie, session_cookie_text};

verus! {

/// The kind of credential the identity service issues.
#[derive(Clone, Copy, Debug, PartialEq, Eq)]
pub enum TokenType {
    Bearer,
}

/// A credential issued by the identity service's token endpoint.
#[derive(Clone, Debug, PartialEq, Eq)]
pub struct Token {
    pub access_token: String,
    pub token_type: TokenType,
}

/// What the token endpoint gave back for a login form.
#[derive(Clone, Debug)]
pub enum LoginReply {
    /// An answer with `status`; `token` is its body read as a token, `None`
    /// when the body is not one.
    Answered { status: u16, token: Option<Token> },
    /// No answer: the call failed in transport, as described.
    Unreachable(String),
}

/// Why a login did not produce a session cookie.
#[derive(Clone, Copy, Debug, PartialEq, Eq)]
pub enum LoginError {
    /// The token endpoint could not be reached, or its answer not read.
    ServiceFailure,
    /// The token endpoint refused the username and password (401).
    BadCredentials,
    /// The issued token cannot stand in a `Set-Cookie` header.
    InvalidToken,
    /// The token endpoint answered with an unexpected status.
    UnexpectedStatus(u16),
}

/// What a login reply leads to: the session cookie's text, or an error.
pub open spec fn login_result(reply: LoginReply) -> Result<Seq<char>, LoginError> {
    match reply {
        LoginReply::Answered { status, token } => if status == 200 {
            match token {
                Some(t) => if is_header_value(t.access_token@) {
                    Ok(session_cookie_text(t.access_token@))
                } else {
                    Err(LoginError::InvalidToken)
                },
                None => Err(LoginError::ServiceFailure),
            }
        } else if status == 401 {
            Err(LoginError::BadCredentials)
        } else {
            Err(LoginError::UnexpectedStatus(status))
        },
        LoginReply::Unreachable(_) => Err(LoginError::ServiceFailure),
    }
}

/// The message a user sees for a login error. It never carries the
/// underlying failure's details.
pub open spec fn login_error_message(e: LoginError) -> Seq<char> {
    match e {
        LoginError::ServiceFailure => "Whoops, there was problem. Please try again."@,
        LoginError::BadCredentials => "Bad username or password. Please correct it and try again."@,
        LoginError::InvalidToken => "An unknown error occurred."@,
        LoginError::UnexpectedStatus(_) => "An unknown error occurred."@,
    }
}

impl LoginError {
    /// The message shown to the user for this error.
    pub fn message(&self) -> (r: String)
        ensures
            r@ == login_error_message(*self),
    {
        match self {
            LoginError::ServiceFailure => String::from_str(
                "Whoops, there was problem. Please try again.",
            ),
            LoginError::BadCredentials => String::from_str(
                "Bad username or password. Please correct it and try again.",
            ),
            LoginError::InvalidToken => String::from_str("An unknown error occurred."),
            LoginError::UnexpectedStatus(_) => String::from_str("An unknown error occurred."),
        }
    }
}

/// Turns the token endpoint's reply into the `Set-Cookie` value that
/// installs the session: 200 with a token installs it, 401 is a bad
/// username or password, and anything else is an error.
pub fn login_outcome(reply: LoginReply) -> (r: Result<String, LoginError>)
    ensures
        match r {
            Ok(c) => login_result(reply) == Ok::<Seq<char>, LoginError>(c@),
            Err(e) => login_result(reply) == Err::<Seq<char>, LoginError>(e),
        },
{
    match reply {
        LoginReply::Answered { status, token } => {
            if status == 200 {
                match token {
                    Some(t) => match session_cookie(t.access_token.as_str()) {
                        Ok(c) => Ok(c),
                        Err(_) => Err(LoginError::InvalidToken),
                    },
                    None => Err(LoginError::ServiceFailure),
                }
            } else if status == 401 {
                Err(LoginError::BadCredentials)
            } else {
                Err(LoginError::UnexpectedStatus(status))
            }
        },
        LoginReply::Unreachable(_) => Err(LoginError::ServiceFailure),
    }
}

} // verus!
