//! The guard in front of protected content: it takes a session verdict once
//! and decides between rendering and sending the browser to log in.
use vstd::prelude::*;
use vstd::utf8::encode_utf8;

use crate::forge::{logout_cookie, logout_cookie_text};
use crate::session::SessionVerdict;

verus! {

/// The path of the login page.
pub const LOGIN_PATH: &'static str = "/login";

/// A byte that `urlencoding::encode` keeps as it is: an ASCII letter or
/// digit, `-`, `.`, `_` or `~`.
pub open spec fn is_unreserved(b: u8) -> bool {
    ||| 48 <= b <= 57
    ||| 65 <= b <= 90
    ||| 97 <= b <= 122
    ||| b == 45
    ||| b == 46
    ||| b == 95
    ||| b == 126
}

/// The upper-case hexadecimal digit for `d < 16`.
pub open spec fn hex_digit(d: u8) -> char {
    if d < 10 {
        (48 + d) as char
    } else {
        (55 + d) as char
    }
}

/// One byte, percent-encoded.
pub open spec fn encode_byte(b: u8) -> Seq<char> {
    if is_unreserved(b) {
        seq![b as char]
    } else {
        seq!['%', hex_digit(b / 16), hex_digit(b % 16)]
    }
}

/// Bytes, percent-encoded one after another.
pub open spec fn percent_encode(b: Seq<u8>) -> Seq<char>
    decreases b.len(),
{
    if b.len() == 0 {
        Seq::empty()
    } else {
        encode_byte(b[0]) + percent_encode(b.drop_first())
    }
}

/// Text made safe for a URL query: its UTF-8 bytes, percent-encoded.
pub open spec fn url_encoded(s: Seq<char>) -> Seq<char> {
    percent_encode(encode_utf8(s))
}

/// Relies on `urlencoding::encode`: each UTF-8 byte of the text is kept
/// when it is an ASCII letter or digit, `-`, `.`, `_` or `~`, and written
/// as `%` and two upper-case hex digits otherwise.
#[verifier::external_body]
fn url_encode(s: &str) -> (r: String)
    ensures
        r@ == url_encoded(s@),
{
    urlencoding::encode(s).into_owned()
}

/// Where to send a browser: a path and a human-readable reason.
#[derive(Clone, Debug, PartialEq, Eq)]
pub struct RedirectInstruction {
    pub path: String,
    pub reason: String,
}

/// The URL of a redirect: the path with the encoded reason as `msg`.
pub open spec fn redirect_location(path: Seq<char>, reason: Seq<char>) -> Seq<char> {
    path + "?msg="@ + url_encoded(reason)
}

impl RedirectInstruction {
    /// The URL to redirect to: `<path>?msg=<reason, url-encoded>`.
    pub fn location(&self) -> (r: String)
        ensures
            r@ == redirect_location(self.path@, self.reason@),
    {
        let mut r = self.path.clone();
        r.append("?msg=");
        let encoded = url_encode(self.reason.as_str());
        r.append(encoded.as_str());
        r
    }
}

/// A redirect to the login page that tells the user `msg`.
pub fn login_redirect(msg: &str) -> (r: RedirectInstruction)
    ensures
        r.path@ == LOGIN_PATH@,
        r.reason@ == msg@,
{
    RedirectInstruction { path: String::from_str(LOGIN_PATH), reason: String::from_str(msg) }
}

/// The states of the guard: it starts out checking and ends in one of the
/// three others, once per request.
#[derive(Clone, Copy, Debug, PartialEq, Eq)]
pub enum GuardState {
    Checking,
    Allowed,
    LoggedOut,
    ErrorLoggedOut,
}

/// What the guard has the response do.
#[derive(Clone, Debug, PartialEq, Eq)]
pub enum GuardEffect {
    /// Render the protected content.
    Render,
    /// Render nothing protected: send the browser to `redirect` and destroy
    /// its session cookie with the `Set-Cookie` value `clear_cookie`.
    LogOut { redirect: RedirectInstruction, clear_cookie: String },
}

/// The state a verdict takes the guard to.
pub open spec fn verdict_state(v: SessionVerdict) -> GuardState {
    match v {
        SessionVerdict::Authenticated(_) => GuardState::Allowed,
        SessionVerdict::Unauthenticated => GuardState::LoggedOut,
        SessionVerdict::VerificationFailed(_) => GuardState::ErrorLoggedOut,
    }
}

/// The reason the user reads when a verdict sends them to log in. It
/// never carries the details of a failure.
pub open spec fn logout_reason(v: SessionVerdict) -> Seq<char> {
    match v {
        SessionVerdict::Authenticated(_) => Seq::empty(),
        SessionVerdict::Unauthenticated => "you have been logged out"@,
        SessionVerdict::VerificationFailed(_) => "an error occurred, please log in"@,
    }
}

/// `e` is the effect the guard has for verdict `v`.
pub open spec fn is_effect_of(e: GuardEffect, v: SessionVerdict) -> bool {
    match v {
        SessionVerdict::Authenticated(_) => e is Render,
        _ => e matches GuardEffect::LogOut { redirect, clear_cookie } && redirect.path@ == LOGIN_PATH@
            && redirect.reason@ == logout_reason(v) && clear_cookie@ == logout_cookie_text(),
    }
}

/// What the response does for a verdict. An authenticated request sees the
/// protected content; any other is sent to log in, with the verdict's
/// reason, and loses its session cookie.
pub fn guard_effect(verdict: &SessionVerdict) -> (r: GuardEffect)
    ensures
        is_effect_of(r, *verdict),
{
    match verdict {
        SessionVerdict::Authenticated(_) => GuardEffect::Render,
        SessionVerdict::Unauthenticated => GuardEffect::LogOut {
            redirect: login_redirect("you have been logged out"),
            clear_cookie: logout_cookie(),
        },
        SessionVerdict::VerificationFailed(_) => GuardEffect::LogOut {
            redirect: login_redirect("an error occurred, please log in"),
            clear_cookie: logout_cookie(),
        },
    }
}

/// The guard of one request. It takes one verdict and acts on it once.
pub struct AuthGuard {
    state: GuardState,
}

impl View for AuthGuard {
    type V = GuardState;

    closed spec fn view(&self) -> GuardState {
        self.state
    }
}

impl AuthGuard {
    /// A guard that has not yet taken a verdict.
    pub fn new() -> (r: AuthGuard)
        ensures
            r@ == GuardState::Checking,
    {
        AuthGuard { state: GuardState::Checking }
    }

    /// The guard's current state.
    pub fn state(&self) -> (r: GuardState)
        ensures
            r == self@,
    {
        self.state
    }

    /// Takes the request's verdict. The first time, the guard moves to the
    /// verdict's state and returns its effect; after that it stays where it
    /// is and returns `None`.
    pub fn decide(&mut self, verdict: SessionVerdict) -> (r: Option<GuardEffect>)
        ensures
            old(self)@ == GuardState::Checking ==> final(self)@ == verdict_state(verdict) && (
            r matches Some(e) && is_effect_of(e, verdict)),
            old(self)@ != GuardState::Checking ==> final(self)@ == old(self)@ && r is None,
    {
        match self.state {
            GuardState::Checking => {
                let effect = guard_effect(&verdict);
                self.state = match verdict {
                    SessionVerdict::Authenticated(_) => GuardState::Allowed,
                    SessionVerdict::Unauthenticated => GuardState::LoggedOut,
                    SessionVerdict::VerificationFailed(_) => GuardState::ErrorLoggedOut,
                };
                Some(effect)
            },
            _ => None,
        }
    }
}

/// The guard renders protected content only on an `Authenticated` verdict.
/// `Unauthenticated` and `VerificationFailed` both send the browser to the
/// login page and destroy the session cookie, with different reasons.
pub proof fn lemma_guard_renders_only_when_authenticated(
    v: SessionVerdict,
    e: GuardEffect,
    w: SessionVerdict,
    f: GuardEffect,
)
    requires
        is_effect_of(e, v),
        is_effect_of(f, w),
    ensures
        e is Render <==> v is Authenticated,
        !(v is Authenticated) ==> (e matches GuardEffect::LogOut { redirect, clear_cookie }
            && redirect.path@ == LOGIN_PATH@ && clear_cookie@ == logout_cookie_text()),
        (v is Unauthenticated && w is VerificationFailed) ==> (e is LogOut && f is LogOut
            && e->redirect.path@ == f->redirect.path@ && e->clear_cookie@ == f->clear_cookie@
            && e->redirect.reason@ != f->redirect.reason@),
{
    reveal_strlit("you have been logged out");
    reveal_strlit("an error occurred, please log in");
    if v is Unauthenticated && w is VerificationFailed {
        assert(logout_reason(v)[0] != logout_reason(w)[0]);
    }
}

} // verus!
