//! Deciding whether a request carries a valid session: the token step that
//! reads the cookie, and the verdict drawn from the identity service's reply.
use vstd::prelude::*;

use crate::cookie::{cookie_name, cookie_value, get_token, token_in_headers, CookieError};
use crate::text::{ascii_chars, is_header_text};

verus! {

/// The authenticated principal, as the identity service describes it.
#[derive(Clone, Debug, PartialEq, Eq)]
pub struct User {
    pub id: String,
    pub handle: String,
    pub full_name: String,
    pub preferred_name: String,
}

/// Why a session could not be verified. Operators see it; users never do.
#[derive(Clone, Debug, PartialEq, Eq)]
pub enum FailureReason {
    /// A `Cookie` header could not be read as text.
    UnreadableCookie,
    /// The identity service could not be reached; what the transport reported.
    Transport(String),
    /// The identity service answered 200 with a body that is no identity.
    MalformedIdentity,
    /// The identity service answered with a status other than 200 and 401.
    UnexpectedStatus(u16),
}

/// The outcome of checking one request's session.
#[derive(Clone, Debug, PartialEq, Eq)]
pub enum SessionVerdict {
    Authenticated(User),
    Unauthenticated,
    VerificationFailed(FailureReason),
}

/// What the identity service's "who is this" endpoint gave back.
#[derive(Clone, Debug)]
pub enum IdentityReply {
    /// An answer with `status`; `identity` is its body read as an identity
    /// record, `None` when the body is not one.
    Answered { status: u16, identity: Option<User> },
    /// No answer: the call failed in transport, as described.
    Unreachable(String),
}

/// The first step of a session check.
#[derive(Clone, Debug)]
pub enum SessionStep {
    /// The verdict is known without asking the identity service.
    Settled(SessionVerdict),
    /// The identity service must be asked about this token.
    Validate(String),
}

/// The verdict that a reply of the identity service gives.
pub open spec fn reply_verdict(reply: IdentityReply) -> SessionVerdict {
    match reply {
        IdentityReply::Answered { status, identity } => if status == 200 {
            match identity {
                Some(u) => SessionVerdict::Authenticated(u),
                None => SessionVerdict::VerificationFailed(FailureReason::MalformedIdentity),
            }
        } else if status == 401 {
            SessionVerdict::Unauthenticated
        } else {
            SessionVerdict::VerificationFailed(FailureReason::UnexpectedStatus(status))
        },
        IdentityReply::Unreachable(detail) => SessionVerdict::VerificationFailed(
            FailureReason::Transport(detail),
        ),
    }
}

/// The verdict of a session check on a request with these `Cookie` headers,
/// where the identity service, if it is asked, gives `reply`.
pub open spec fn session_verdict(headers: Seq<Seq<u8>>, reply: IdentityReply) -> SessionVerdict {
    match token_in_headers(headers) {
        Ok(Some(_)) => reply_verdict(reply),
        Ok(None) => SessionVerdict::Unauthenticated,
        Err(_) => SessionVerdict::VerificationFailed(FailureReason::UnreadableCookie),
    }
}

/// Starts a session check on a request's `Cookie` headers (raw bytes, in
/// order): without a `jwt` cookie the request is unauthenticated at once;
/// with one, its first value is handed on to the identity service.
pub fn begin_session_check(headers: &Vec<Vec<u8>>) -> (r: SessionStep)
    ensures
        match token_in_headers(headers.deep_view()) {
            Ok(Some(t)) => r matches SessionStep::Validate(s) && s@ == t,
            Ok(None) => r == SessionStep::Settled(SessionVerdict::Unauthenticated),
            Err(_) => r == SessionStep::Settled(
                SessionVerdict::VerificationFailed(FailureReason::UnreadableCookie),
            ),
        },
{
    match get_token(headers) {
        Ok(Some(t)) => SessionStep::Validate(t),
        Ok(None) => SessionStep::Settled(SessionVerdict::Unauthenticated),
        Err(_) => SessionStep::Settled(
            SessionVerdict::VerificationFailed(FailureReason::UnreadableCookie),
        ),
    }
}

/// Finishes a session check with the identity service's reply: 200 with an
/// identity authenticates it, 401 leaves the request unauthenticated, and
/// anything else fails the verification.
pub fn check_identity_reply(reply: IdentityReply) -> (r: SessionVerdict)
    ensures
        r == reply_verdict(reply),
{
    match reply {
        IdentityReply::Answered { status, identity } => {
            if status == 200 {
                match identity {
                    Some(u) => SessionVerdict::Authenticated(u),
                    None => SessionVerdict::VerificationFailed(FailureReason::MalformedIdentity),
                }
            } else if status == 401 {
                SessionVerdict::Unauthenticated
            } else {
                SessionVerdict::VerificationFailed(FailureReason::UnexpectedStatus(status))
            }
        },
        IdentityReply::Unreachable(detail) => SessionVerdict::VerificationFailed(
            FailureReason::Transport(detail),
        ),
    }
}

/// The `Authorization` header value that presents `token` to the identity
/// service: `Bearer <token>`.
pub fn bearer_credential(token: &str) -> (r: String)
    ensures
        r@ == "Bearer "@ + token@,
{
    let mut r = String::from_str("Bearer ");
    r.append(token);
    r
}

/// Headers that are all text and none of which binds `jwt`.
pub open spec fn binds_no_token(headers: Seq<Seq<u8>>) -> bool {
    forall|i: int|
        0 <= i < headers.len() ==> is_header_text(#[trigger] headers[i]) && cookie_value(
            ascii_chars(headers[i]),
            cookie_name(),
        ) is None
}

/// A request whose cookies bind no `jwt` is unauthenticated whatever the
/// identity service would say, and the check never asks it.
pub proof fn lemma_no_token_is_unauthenticated(headers: Seq<Seq<u8>>, reply: IdentityReply)
    requires
        binds_no_token(headers),
    ensures
        token_in_headers(headers) == Ok::<Option<Seq<char>>, CookieError>(None),
        session_verdict(headers, reply) == SessionVerdict::Unauthenticated,
    decreases headers.len(),
{
    if headers.len() > 0 {
        let rest = headers.drop_first();
        assert forall|i: int| 0 <= i < rest.len() implies is_header_text(#[trigger] rest[i])
            && cookie_value(ascii_chars(rest[i]), cookie_name()) is None by {
            assert(rest[i] == headers[i + 1]);
        }
        assert(is_header_text(headers[0]));
        lemma_no_token_is_unauthenticated(rest, reply);
    }
}

/// When header `i` is the first to bind `jwt`, its value is the token the
/// check hands on, whatever other cookies the headers hold.
pub proof fn lemma_first_token_is_forwarded(headers: Seq<Seq<u8>>, i: int, token: Seq<char>)
    requires
        0 <= i < headers.len(),
        binds_no_token(headers.take(i)),
        is_header_text(headers[i]),
        cookie_value(ascii_chars(headers[i]), cookie_name()) == Some(token),
    ensures
        token_in_headers(headers) == Ok::<Option<Seq<char>>, CookieError>(Some(token)),
    decreases i,
{
    if i > 0 {
        let rest = headers.drop_first();
        assert(headers.take(i)[0] == headers[0]);
        assert forall|k: int| 0 <= k < i - 1 implies is_header_text(#[trigger] rest.take(i - 1)[k])
            && cookie_value(ascii_chars(rest.take(i - 1)[k]), cookie_name()) is None by {
            assert(rest.take(i - 1)[k] == headers.take(i)[k + 1]);
        }
        lemma_first_token_is_forwarded(rest, i - 1, token);
    }
}

/// Once a token has been read, the identity service's reply decides: 200
/// with an identity authenticates that identity, 401 leaves the request
/// unauthenticated, and any other status or a transport failure fails the
/// verification.
pub proof fn lemma_reply_decides(headers: Seq<Seq<u8>>, token: Seq<char>, reply: IdentityReply)
    requires
        token_in_headers(headers) == Ok::<Option<Seq<char>>, CookieError>(Some(token)),
    ensures
        reply matches IdentityReply::Answered { status: 200, identity: Some(u) } ==> session_verdict(
            headers,
            reply,
        ) == SessionVerdict::Authenticated(u),
        reply matches IdentityReply::Answered { status: 401, .. } ==> session_verdict(headers, reply)
            == SessionVerdict::Unauthenticated,
        reply matches IdentityReply::Answered { status, .. } && status != 200 && status != 401
            ==> session_verdict(headers, reply) is VerificationFailed,
        reply is Unreachable ==> session_verdict(headers, reply) is VerificationFailed,
{
}

/// Checking a session twice, with the same cookies and the same reply from
/// the identity service, gives the same verdict both times.
pub proof fn lemma_check_is_repeatable(
    headers: Seq<Seq<u8>>,
    reply: IdentityReply,
    first: SessionVerdict,
    second: SessionVerdict,
)
    requires
        first == session_verdict(headers, reply),
        second == session_verdict(headers, reply),
    ensures
        first == second,
{
}

} // verus!
