use student_portal::login::{authenticate, login, LoginAction, LoginEvent, LoginState};
use student_portal::models::Login;
use student_portal::reply::{Body, Reply, Status};

fn creds(email: &str, password: &str) -> Login {
    Login { email: email.to_string(), password: password.to_string() }
}

fn finished(res: (LoginState, LoginAction)) -> Reply {
    match res {
        (LoginState::Finished, LoginAction::Respond(r)) => r,
        _ => panic!("expected a reply"),
    }
}

fn info(r: &Reply) -> String {
    match &r.body {
        Body::Info(i) => i.clone(),
        _ => panic!("expected info"),
    }
}

#[test]
fn login_needs_both_fields() {
    for f in [creds("", "pw"), creds("a@b", ""), creds("", "")] {
        let r = finished(login(LoginState::Idle, LoginEvent::Submitted(f)));
        assert_eq!(r.status, Status::BadRequest);
        assert_eq!(info(&r), "Please complete the credentials");
    }
}

#[test]
fn login_fetches_verified_flag() {
    match login(LoginState::Idle, LoginEvent::Submitted(creds("a@b", "pw"))) {
        (LoginState::AwaitVerified(_), LoginAction::FetchVerified(e)) => assert_eq!(e, "a@b"),
        _ => panic!("expected a lookup"),
    }
}

#[test]
fn login_unverified_is_locked() {
    let r = finished(login(LoginState::AwaitVerified(creds("a@b", "pw")), LoginEvent::VerifiedFetched(Ok(Some(false)))));
    assert_eq!(r.status, Status::Locked);
    assert_eq!(info(&r), "Please verify Your email");
}

#[test]
fn login_verified_fetches_account() {
    match login(LoginState::AwaitVerified(creds("a@b", "pw")), LoginEvent::VerifiedFetched(Ok(Some(true)))) {
        (LoginState::AwaitAccount(_), LoginAction::FetchAccount(e)) => assert_eq!(e, "a@b"),
        _ => panic!("expected a lookup"),
    }
}

#[test]
fn login_lookup_errors() {
    let r = finished(login(
        LoginState::AwaitVerified(creds("a@b", "pw")),
        LoginEvent::VerifiedFetched(Err("no rows".to_string())),
    ));
    assert_eq!(r.status, Status::BadRequest);
    assert_eq!(info(&r), "no rows");
    let r = finished(login(LoginState::AwaitAccount(creds("a@b", "pw")), LoginEvent::AccountFetched(Err("e2".to_string()))));
    assert_eq!(r.status, Status::BadRequest);
    assert_eq!(info(&r), "e2");
    let r = finished(login(LoginState::AwaitAccount(creds("a@b", "pw")), LoginEvent::AccountFetched(Ok(None))));
    assert_eq!(r.status, Status::BadRequest);
    assert_eq!(info(&r), "Unable to get the data");
}

#[test]
fn login_other_address() {
    let stored = creds("x@y", &bcrypt::hash("pw", 4).unwrap());
    let r = finished(login(LoginState::AwaitAccount(creds("a@b", "pw")), LoginEvent::AccountFetched(Ok(Some(stored)))));
    assert_eq!(r.status, Status::NotFound);
    assert_eq!(info(&r), "Email not registered");
}

#[test]
fn login_wrong_password() {
    let stored = creds("a@b", &bcrypt::hash("pw", 4).unwrap());
    let r = finished(login(LoginState::AwaitAccount(creds("a@b", "nope")), LoginEvent::AccountFetched(Ok(Some(stored)))));
    assert_eq!(r.status, Status::BadRequest);
    assert_eq!(info(&r), "Password is wrong");
}

#[test]
fn login_malformed_hash() {
    let stored = creds("a@b", "pw");
    let r = finished(login(LoginState::AwaitAccount(creds("a@b", "pw")), LoginEvent::AccountFetched(Ok(Some(stored)))));
    assert_eq!(r.status, Status::BadRequest);
    assert_eq!(info(&r), "Unable to parse password: Invalid hash: the hash format is malformed; expected 60 ASCII bytes");
}

#[test]
fn login_right_password_stores_token() {
    let stored = creds("a@b", &bcrypt::hash("pw", 4).unwrap());
    match login(LoginState::AwaitAccount(creds("a@b", "pw")), LoginEvent::AccountFetched(Ok(Some(stored)))) {
        (LoginState::AwaitTokenStored(t), LoginAction::StoreToken(t2, e)) => {
            assert_eq!(t, t2);
            assert_eq!(e, "a@b");
            assert_eq!(t.len(), 36);
            let u = uuid::Uuid::parse_str(&t).unwrap();
            assert_eq!(u.get_version_num(), 4);
            assert_eq!(t, t.to_lowercase());
        },
        _ => panic!("expected the token to be stored"),
    }
}

#[test]
fn login_tokens_differ() {
    let run = || {
        let stored = creds("a@b", &bcrypt::hash("pw", 4).unwrap());
        match login(LoginState::AwaitAccount(creds("a@b", "pw")), LoginEvent::AccountFetched(Ok(Some(stored)))) {
            (LoginState::AwaitTokenStored(t), _) => t,
            _ => panic!("expected the token to be stored"),
        }
    };
    assert_ne!(run(), run());
}

#[test]
fn authenticate_with_given_outcomes() {
    let r = finished(authenticate(creds("a@b", "pw"), creds("a@b", "h"), Err("boom".to_string()), String::new()));
    assert_eq!(info(&r), "Unable to parse password: boom");
    match authenticate(creds("a@b", "pw"), creds("a@b", "h"), Ok(true), "tok".to_string()) {
        (LoginState::AwaitTokenStored(t), LoginAction::StoreToken(t2, e)) => {
            assert_eq!((t.as_str(), t2.as_str(), e.as_str()), ("tok", "tok", "a@b"));
        },
        _ => panic!("expected the token to be stored"),
    }
}

#[test]
fn login_sets_session_cookie() {
    let r = finished(login(LoginState::AwaitTokenStored("tok".to_string()), LoginEvent::TokenStored(Ok(()))));
    assert_eq!(r.status, Status::Success);
    assert_eq!(info(&r), "Proceed to login");
    let c = r.session.expect("a session cookie");
    assert_eq!(c.name, "refresh");
    assert_eq!(c.value, "tok");
    assert_eq!(c.path, "/");
    assert!(c.http_only);
    assert!(c.secure);
    assert_eq!(c.max_age_hours, 5);
}

#[test]
fn login_token_store_fails() {
    let r = finished(login(LoginState::AwaitTokenStored("tok".to_string()), LoginEvent::TokenStored(Err("e".to_string()))));
    assert_eq!(r.status, Status::BadRequest);
    assert_eq!(info(&r), "e");
    assert!(r.session.is_none());
}
