use movie_reviews::jwt::decode_jwt;
use movie_reviews::session::{logout, SessionCookies};
use movie_reviews::users::{check_credentials, hash_password, login, register_outcome, User};

const SECRET: &str = "s3cr3t";
const NOW: u64 = 1_700_000_000;

fn account(password: &str) -> User {
    User {
        id: "1".to_string(),
        email: "a@b.com".to_string(),
        password_hash: bcrypt::hash(password, 4).unwrap(),
    }
}

#[test]
fn hashed_password_verifies() {
    let h = hash_password("hunter2").unwrap();
    assert_ne!(h, "hunter2");
    assert!(bcrypt::verify("hunter2", &h).unwrap());
}

#[test]
fn credentials_check() {
    let u = account("pw");
    assert!(check_credentials(Some(&u), "pw"));
    assert!(!check_credentials(Some(&u), "wrong"));
    assert!(!check_credentials(None, "pw"));
}

#[test]
fn unreadable_hash_is_refused() {
    let u = User { id: "1".to_string(), email: "a@b.com".to_string(), password_hash: "nope".to_string() };
    assert!(!check_credentials(Some(&u), "nope"));
}

#[test]
fn login_success_sets_session() {
    let u = account("pw");
    let mut cookies = SessionCookies::new();
    let target = login(SECRET, Some(&u), "pw", NOW, &mut cookies);
    assert_eq!(target, "/movies");
    assert_eq!(cookies.notice, Some("User logged in correctly".to_string()));
    let token = cookies.jwt.clone().unwrap();
    let claims = decode_jwt(SECRET, &token, NOW).unwrap();
    assert_eq!(claims.sub, "a@b.com");
    assert_eq!(claims.exp, NOW + 3600);
}

#[test]
fn login_failures_look_the_same() {
    let u = account("pw");
    let mut unknown = SessionCookies::new();
    let mut wrong = SessionCookies::new();
    let t1 = login(SECRET, None, "pw", NOW, &mut unknown);
    let t2 = login(SECRET, Some(&u), "bad", NOW, &mut wrong);
    assert_eq!(t1, t2);
    assert_eq!(t1, "/users/sign_in");
    assert_eq!(unknown.notice, wrong.notice);
    assert_eq!(unknown.notice, Some("Invalid email or password".to_string()));
    assert_eq!(unknown.jwt, None);
    assert_eq!(wrong.jwt, None);
}

#[test]
fn failed_login_keeps_existing_session() {
    let mut cookies = SessionCookies::new();
    cookies.jwt = Some("old".to_string());
    login(SECRET, None, "pw", NOW, &mut cookies);
    assert_eq!(cookies.jwt, Some("old".to_string()));
}

#[test]
fn registration_outcomes() {
    let mut cookies = SessionCookies::new();
    assert_eq!(register_outcome(true, &mut cookies), "/users/sign_in");
    assert_eq!(cookies.notice, None);
    assert_eq!(register_outcome(false, &mut cookies), "/users/sign_up");
    assert_eq!(cookies.notice, Some("Registration failed".to_string()));
}

#[test]
fn logout_clears_only_the_session() {
    let mut cookies = SessionCookies::new();
    cookies.jwt = Some("token".to_string());
    cookies.set_notice("hello".to_string());
    assert_eq!(logout(&mut cookies), "/");
    assert_eq!(cookies.jwt, None);
    assert_eq!(cookies.notice, Some("hello".to_string()));
}

#[test]
fn notice_shows_once() {
    let mut cookies = SessionCookies::new();
    cookies.set_notice("once".to_string());
    assert_eq!(cookies.take_notice(), Some("once".to_string()));
    assert_eq!(cookies.take_notice(), None);
}
