use student_portal::email_verification::{verify_email, CodeRecord, VerifyAction, VerifyEvent, VerifyState};
use student_portal::home::{home_page, HomeAction, HomeEvent, HomeState, TokenCourse};
use student_portal::login::{login, LoginAction, LoginEvent, LoginState};
use student_portal::models::{ForgottenPassword, Login, Signup};
use student_portal::password_reset::{
    forgotten_password, get_email, CodeRequestAction, CodeRequestEvent, CodeRequestState, ResetAction,
    ResetEvent, ResetState,
};
use student_portal::reply::{Body, Status};
use student_portal::signup::{student_signup, SignupAction, SignupEvent, SignupState};

fn form() -> Signup {
    Signup {
        name: "Ada".to_string(),
        email: "ada@example.com".to_string(),
        phone: "0123".to_string(),
        course: "ui/ux".to_string(),
        password: "pw-at-signup".to_string(),
    }
}

fn stored_token(email: &str, password: &str, hash: String) -> String {
    let account = Login { email: email.to_string(), password: hash };
    let f = Login { email: email.to_string(), password: password.to_string() };
    match login(LoginState::AwaitAccount(f), LoginEvent::AccountFetched(Ok(Some(account)))) {
        (LoginState::AwaitTokenStored(t), LoginAction::StoreToken(_, e)) => {
            assert_eq!(e, email);
            t
        },
        _ => panic!("expected the token to be stored"),
    }
}

#[test]
fn signup_code_then_verification_then_login_then_course_page() {
    let (code, row) = match student_signup(SignupState::AwaitPhoneCheck(form()), SignupEvent::PhoneChecked(Ok(false))) {
        (SignupState::AwaitInsert(_, code), SignupAction::Insert(row)) => (code, row),
        _ => panic!("expected an insert"),
    };
    let mail = match student_signup(SignupState::AwaitInsert(form(), code), SignupEvent::Inserted(Ok(row.email.clone()))) {
        (_, SignupAction::SendMail(m)) => m,
        _ => panic!("expected a mail"),
    };
    let typed = mail.body.strip_prefix("Your OTP is: ").unwrap().to_string();
    assert_eq!(typed, row.email_code);
    let record = CodeRecord { code: Some(row.email_code.clone()), created_at: Some(row.code_created_at) };
    match verify_email(
        VerifyState::AwaitRecord(row.email.clone(), typed),
        VerifyEvent::RecordFetched(Ok(Some(record))),
    ) {
        (VerifyState::AwaitUpdate, VerifyAction::MarkVerified(m)) => assert_eq!(m.email, "ada@example.com"),
        _ => panic!("expected the update"),
    }
    let token = stored_token("ada@example.com", "pw-at-signup", row.password_hash.clone());
    let reply = match login(LoginState::AwaitTokenStored(token.clone()), LoginEvent::TokenStored(Ok(()))) {
        (LoginState::Finished, LoginAction::Respond(r)) => r,
        _ => panic!("expected a reply"),
    };
    let cookie = reply.session.map(|c| c.value);
    assert_eq!(cookie.as_deref(), Some(token.as_str()));
    let state = match home_page(HomeState::Idle, HomeEvent::Requested(cookie)) {
        (s, HomeAction::FetchStudentByToken(t)) => {
            assert_eq!(t, token);
            s
        },
        _ => panic!("expected a lookup"),
    };
    let student = TokenCourse { token_id: Some(token.clone()), course: Some(row.course.clone()) };
    match home_page(state, HomeEvent::StudentFetched(Ok(student))) {
        (HomeState::Finished, HomeAction::Respond(r)) => {
            assert_eq!(r.status, Status::Success);
            match r.body {
                Body::Path(p) => assert_eq!(p, "./course/Ui/Ux.pdf"),
                _ => panic!("expected a path"),
            }
        },
        _ => panic!("expected a reply"),
    }
}

#[test]
fn reset_code_then_new_password_logs_in() {
    let (code, stored) = match get_email(CodeRequestState::AwaitAccount("a@b".to_string()), CodeRequestEvent::AccountFound(Ok(()))) {
        (CodeRequestState::AwaitCodeStored(_, c), CodeRequestAction::StoreResetCode(rc)) => (c, rc),
        _ => panic!("expected the code to be stored"),
    };
    let mail = match get_email(CodeRequestState::AwaitCodeStored("a@b".to_string(), code), CodeRequestEvent::CodeStored(Ok(()))) {
        (_, CodeRequestAction::SendMail(m)) => m,
        _ => panic!("expected a mail"),
    };
    assert_eq!(mail.body, stored.code);
    let f = ForgottenPassword { otp: mail.body.clone(), password: "brand-new".to_string() };
    let record = CodeRecord { code: Some(stored.code.clone()), created_at: Some(stored.created_at) };
    let hash = match forgotten_password(ResetState::AwaitRecord("a@b".to_string(), f), ResetEvent::RecordFetched(Ok(record))) {
        (ResetState::AwaitPasswordStored, ResetAction::StorePassword(e, h)) => {
            assert_eq!(e, "a@b");
            h
        },
        _ => panic!("expected the password to be stored"),
    };
    let token = stored_token("a@b", "brand-new", hash);
    assert_eq!(token.len(), 36);
}

#[test]
fn expired_signup_code_is_refused() {
    let record = CodeRecord { code: Some("123456".to_string()), created_at: Some(chrono::Utc::now().timestamp_micros() - 5 * 60_000_000) };
    match verify_email(
        VerifyState::AwaitRecord("a@b".to_string(), "123456".to_string()),
        VerifyEvent::RecordFetched(Ok(Some(record))),
    ) {
        (VerifyState::Finished, VerifyAction::Respond(r)) => assert_eq!(r.status, Status::BadRequest),
        _ => panic!("expected a reply"),
    }
}
