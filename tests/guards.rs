use movie_reviews::guards::{
    evaluate_guard, session_subject, AuthUser, AuthenticatedUser, GuardOutcome, GuardPolicy,
    LoggedUser, Unauthorized,
};
use movie_reviews::jwt::{encode_token, generate_jwt};

const SECRET: &str = "s3cr3t";
const NOW: u64 = 1_700_000_000;

#[test]
fn strict_guard_accepts_valid_session() {
    let token = generate_jwt(SECRET, "a@b.com", NOW);
    let user = AuthUser::from_cookie(SECRET, Some(&token), NOW + 5).unwrap();
    assert_eq!(user.email, "a@b.com");
}

#[test]
fn strict_guard_rejects_missing_cookie() {
    let r = AuthUser::from_cookie(SECRET, None, NOW);
    assert_eq!(r, Err(Unauthorized));
    assert_eq!(Unauthorized.status(), 401);
}

#[test]
fn permissive_guard_anonymous_on_missing_cookie() {
    assert_eq!(LoggedUser::from_cookie(SECRET, None, NOW).email, None);
    assert_eq!(AuthenticatedUser::from_cookie(SECRET, None, NOW).email, None);
}

#[test]
fn permissive_guard_names_valid_session() {
    let token = generate_jwt(SECRET, "a@b.com", NOW);
    assert_eq!(LoggedUser::from_cookie(SECRET, Some(&token), NOW).email, Some("a@b.com".to_string()));
    assert_eq!(
        AuthenticatedUser::from_cookie(SECRET, Some(&token), NOW).email,
        Some("a@b.com".to_string())
    );
}

#[test]
fn guards_diverge_on_invalid_cookie() {
    let cookies = ["garbage", "a.b.c", ""];
    for c in cookies.iter() {
        assert_eq!(evaluate_guard(GuardPolicy::Reject, SECRET, Some(c), NOW), GuardOutcome::Rejected);
        assert_eq!(evaluate_guard(GuardPolicy::Anonymous, SECRET, Some(c), NOW), GuardOutcome::Anonymous);
        assert!(AuthUser::from_cookie(SECRET, Some(c), NOW).is_err());
        assert_eq!(LoggedUser::from_cookie(SECRET, Some(c), NOW).email, None);
    }
    assert_eq!(evaluate_guard(GuardPolicy::Reject, SECRET, None, NOW), GuardOutcome::Rejected);
    assert_eq!(evaluate_guard(GuardPolicy::Anonymous, SECRET, None, NOW), GuardOutcome::Anonymous);
}

#[test]
fn expired_session_is_rejected_or_anonymous() {
    let token = encode_token(SECRET, "a@b.com", NOW - 1);
    assert!(AuthUser::from_cookie(SECRET, Some(&token), NOW).is_err());
    assert_eq!(LoggedUser::from_cookie(SECRET, Some(&token), NOW).email, None);
}

#[test]
fn forged_session_is_rejected_or_anonymous() {
    let token = generate_jwt("another secret", "a@b.com", NOW);
    assert!(AuthUser::from_cookie(SECRET, Some(&token), NOW).is_err());
    assert_eq!(LoggedUser::from_cookie(SECRET, Some(&token), NOW).email, None);
}

#[test]
fn session_subject_reads_the_token() {
    let token = generate_jwt(SECRET, "me@x.org", NOW);
    assert_eq!(session_subject(SECRET, Some(&token), NOW), Some("me@x.org".to_string()));
    assert_eq!(session_subject(SECRET, None, NOW), None);
    assert_eq!(
        evaluate_guard(GuardPolicy::Reject, SECRET, Some(&token), NOW),
        GuardOutcome::Authenticated("me@x.org".to_string())
    );
}
