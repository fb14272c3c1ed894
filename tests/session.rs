use session_gate::guard::{guard_effect, GuardEffect};
use session_gate::session::{
    begin_session_check, bearer_credential, check_identity_reply, FailureReason, IdentityReply,
    SessionStep, SessionVerdict, User,
};

fn user(id: &str) -> User {
    User {
        id: String::from(id),
        handle: String::from("hoopster"),
        full_name: String::from("Pat Example"),
        preferred_name: String::from("Pat"),
    }
}

fn answered(status: u16, identity: Option<User>) -> IdentityReply {
    IdentityReply::Answered { status, identity }
}

fn run(headers: &Vec<Vec<u8>>, reply: IdentityReply) -> SessionVerdict {
    match begin_session_check(headers) {
        SessionStep::Settled(v) => v,
        SessionStep::Validate(_) => check_identity_reply(reply),
    }
}

fn location(effect: &GuardEffect) -> String {
    match effect {
        GuardEffect::LogOut { redirect, .. } => redirect.location(),
        GuardEffect::Render => panic!("expected a redirect"),
    }
}

#[test]
fn no_cookie_redirects_logged_out() {
    let step = begin_session_check(&Vec::new());
    let verdict = match step {
        SessionStep::Settled(v) => v,
        SessionStep::Validate(_) => panic!("no token to validate"),
    };
    assert_eq!(verdict, SessionVerdict::Unauthenticated);
    let effect = guard_effect(&verdict);
    assert_eq!(location(&effect), "/login?msg=you%20have%20been%20logged%20out");
}

#[test]
fn unrelated_cookies_need_no_validation() {
    let h = vec![b"theme=dark; lang=en".to_vec()];
    assert!(matches!(
        begin_session_check(&h),
        SessionStep::Settled(SessionVerdict::Unauthenticated)
    ));
}

#[test]
fn valid_session_renders() {
    let h = vec![b"jwt=abc123".to_vec()];
    match begin_session_check(&h) {
        SessionStep::Validate(t) => assert_eq!(t, "abc123"),
        SessionStep::Settled(_) => panic!("token should be validated"),
    }
    let verdict = run(&h, answered(200, Some(user("u1"))));
    assert_eq!(verdict, SessionVerdict::Authenticated(user("u1")));
    assert_eq!(guard_effect(&verdict), GuardEffect::Render);
}

#[test]
fn forwards_the_first_token_among_other_cookies() {
    let h = vec![b"theme=dark".to_vec(), b"lang=en; jwt=tok-1; jwt=tok-2".to_vec()];
    match begin_session_check(&h) {
        SessionStep::Validate(t) => assert_eq!(t, "tok-1"),
        SessionStep::Settled(_) => panic!("token should be validated"),
    }
}

#[test]
fn rejected_token_redirects_and_clears() {
    let h = vec![b"jwt=expired".to_vec()];
    let verdict = run(&h, answered(401, None));
    assert_eq!(verdict, SessionVerdict::Unauthenticated);
    match guard_effect(&verdict) {
        GuardEffect::LogOut { redirect, clear_cookie } => {
            assert_eq!(redirect.path, "/login");
            assert_eq!(redirect.reason, "you have been logged out");
            assert_eq!(clear_cookie, "jwt=; Path=/; HttpOnly; Max-Age=0");
        }
        GuardEffect::Render => panic!("must not render"),
    }
}

#[test]
fn unreachable_service_fails_verification() {
    let h = vec![b"jwt=abc123".to_vec()];
    let verdict = run(&h, IdentityReply::Unreachable(String::from("operation timed out")));
    assert_eq!(
        verdict,
        SessionVerdict::VerificationFailed(FailureReason::Transport(String::from(
            "operation timed out"
        )))
    );
    let effect = guard_effect(&verdict);
    assert_eq!(location(&effect), "/login?msg=an%20error%20occurred%2C%20please%20log%20in");
}

#[test]
fn other_statuses_fail_verification() {
    assert_eq!(
        check_identity_reply(answered(500, None)),
        SessionVerdict::VerificationFailed(FailureReason::UnexpectedStatus(500))
    );
    assert_eq!(
        check_identity_reply(answered(403, Some(user("u1")))),
        SessionVerdict::VerificationFailed(FailureReason::UnexpectedStatus(403))
    );
    assert_eq!(
        check_identity_reply(answered(201, Some(user("u1")))),
        SessionVerdict::VerificationFailed(FailureReason::UnexpectedStatus(201))
    );
}

#[test]
fn malformed_identity_fails_verification() {
    assert_eq!(
        check_identity_reply(answered(200, None)),
        SessionVerdict::VerificationFailed(FailureReason::MalformedIdentity)
    );
}

#[test]
fn unreadable_cookie_fails_verification() {
    let h = vec![b"jwt=\x01".to_vec()];
    assert!(matches!(
        begin_session_check(&h),
        SessionStep::Settled(SessionVerdict::VerificationFailed(FailureReason::UnreadableCookie))
    ));
}

#[test]
fn checking_twice_gives_the_same_verdict() {
    let cases = vec![
        (vec![b"jwt=abc123".to_vec()], answered(200, Some(user("u1")))),
        (vec![b"jwt=abc123".to_vec()], answered(401, None)),
        (vec![b"jwt=abc123".to_vec()], IdentityReply::Unreachable(String::from("reset"))),
        (Vec::new(), answered(200, Some(user("u1")))),
    ];
    for (h, reply) in cases {
        assert_eq!(run(&h, reply.clone()), run(&h, reply));
    }
}

#[test]
fn bearer_header_value() {
    assert_eq!(bearer_credential("abc123"), "Bearer abc123");
}
