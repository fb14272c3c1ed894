use session_gate::guard::{login_redirect, AuthGuard, GuardEffect, GuardState, RedirectInstruction};
use session_gate::session::{FailureReason, SessionVerdict, User};

fn user() -> User {
    User {
        id: String::from("u1"),
        handle: String::new(),
        full_name: String::new(),
        preferred_name: String::new(),
    }
}

#[test]
fn guard_starts_checking() {
    assert_eq!(AuthGuard::new().state(), GuardState::Checking);
}

#[test]
fn guard_allows_an_authenticated_request() {
    let mut guard = AuthGuard::new();
    assert_eq!(guard.decide(SessionVerdict::Authenticated(user())), Some(GuardEffect::Render));
    assert_eq!(guard.state(), GuardState::Allowed);
}

#[test]
fn guard_logs_out_an_unauthenticated_request() {
    let mut guard = AuthGuard::new();
    let effect = guard.decide(SessionVerdict::Unauthenticated).unwrap();
    assert_eq!(guard.state(), GuardState::LoggedOut);
    assert_eq!(
        effect,
        GuardEffect::LogOut {
            redirect: login_redirect("you have been logged out"),
            clear_cookie: String::from("jwt=; Path=/; HttpOnly; Max-Age=0"),
        }
    );
}

#[test]
fn guard_logs_out_on_a_failed_verification_without_details() {
    let mut guard = AuthGuard::new();
    let verdict = SessionVerdict::VerificationFailed(FailureReason::Transport(String::from(
        "connection refused at 10.0.0.1",
    )));
    match guard.decide(verdict).unwrap() {
        GuardEffect::LogOut { redirect, clear_cookie } => {
            assert_eq!(redirect.reason, "an error occurred, please log in");
            assert_eq!(clear_cookie, "jwt=; Path=/; HttpOnly; Max-Age=0");
        }
        GuardEffect::Render => panic!("must not render"),
    }
    assert_eq!(guard.state(), GuardState::ErrorLoggedOut);
}

#[test]
fn guard_decides_once() {
    let mut guard = AuthGuard::new();
    assert!(guard.decide(SessionVerdict::Unauthenticated).is_some());
    assert_eq!(guard.decide(SessionVerdict::Authenticated(user())), None);
    assert_eq!(guard.state(), GuardState::LoggedOut);
}

#[test]
fn location_encodes_the_reason() {
    let r = RedirectInstruction { path: String::from("/login"), reason: String::from("a-b_c.d~e f/é") };
    assert_eq!(r.location(), "/login?msg=a-b_c.d~e%20f%2F%C3%A9");
}

#[test]
fn login_redirect_targets_the_login_page() {
    let r = login_redirect("You have been successfully logged out.");
    assert_eq!(r.path, "/login");
    assert_eq!(r.location(), "/login?msg=You%20have%20been%20successfully%20logged%20out.");
}
