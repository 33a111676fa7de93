use student_portal::email_verification::CodeRecord;
use student_portal::models::{EmailInfo, ForgottenPassword};
use student_portal::password_reset::{
    check_reset_code, forgotten_password, get_email, issue_reset_code, CodeRequestAction,
    CodeRequestEvent, CodeRequestState, ResetAction, ResetEvent, ResetState,
};
use student_portal::reply::{Body, Reply, Status};

fn info(r: &Reply) -> String {
    match &r.body {
        Body::Info(i) => i.clone(),
        _ => panic!("expected info"),
    }
}

fn request_reply(res: (CodeRequestState, CodeRequestAction)) -> Reply {
    match res {
        (CodeRequestState::Finished, CodeRequestAction::Respond(r)) => r,
        _ => panic!("expected a reply"),
    }
}

fn reset_reply(res: (ResetState, ResetAction)) -> Reply {
    match res {
        (ResetState::Finished, ResetAction::Respond(r)) => r,
        _ => panic!("expected a reply"),
    }
}

#[test]
fn code_request_looks_up_account() {
    match get_email(CodeRequestState::Idle, CodeRequestEvent::Submitted(EmailInfo { email: "a@b".to_string() })) {
        (CodeRequestState::AwaitAccount(e), CodeRequestAction::FindAccount(q)) => {
            assert_eq!(e, "a@b");
            assert_eq!(q, "a@b");
        },
        _ => panic!("expected a lookup"),
    }
}

#[test]
fn code_request_unknown_account() {
    let r = request_reply(get_email(
        CodeRequestState::AwaitAccount("a@b".to_string()),
        CodeRequestEvent::AccountFound(Err("no rows".to_string())),
    ));
    assert_eq!(r.status, Status::NotFound);
    assert_eq!(info(&r), "no rows");
}

#[test]
fn code_request_stores_fresh_code() {
    let before = chrono::Utc::now().timestamp_micros();
    match get_email(CodeRequestState::AwaitAccount("a@b".to_string()), CodeRequestEvent::AccountFound(Ok(()))) {
        (CodeRequestState::AwaitCodeStored(e, code), CodeRequestAction::StoreResetCode(rc)) => {
            assert_eq!(e, "a@b");
            assert_eq!(rc.email, "a@b");
            assert!((100000..999999).contains(&code));
            assert_eq!(rc.code, code.to_string());
            assert!(rc.created_at >= before);
        },
        _ => panic!("expected the code to be stored"),
    }
}

#[test]
fn issue_reset_code_given_values() {
    match issue_reset_code("a@b".to_string(), 100000, 77) {
        (CodeRequestState::AwaitCodeStored(_, 100000), CodeRequestAction::StoreResetCode(rc)) => {
            assert_eq!((rc.email.as_str(), rc.code.as_str(), rc.created_at), ("a@b", "100000", 77));
        },
        _ => panic!("expected the code to be stored"),
    }
}

#[test]
fn code_request_mails_code() {
    match get_email(CodeRequestState::AwaitCodeStored("a@b".to_string(), 345678), CodeRequestEvent::CodeStored(Ok(()))) {
        (CodeRequestState::AwaitMail, CodeRequestAction::SendMail(m)) => {
            assert_eq!(m.to, "a@b");
            assert_eq!(m.subject, "Sending Code for Password");
            assert_eq!(m.body, "345678");
        },
        _ => panic!("expected a mail"),
    }
}

#[test]
fn code_request_store_and_mail_errors() {
    let r = request_reply(get_email(
        CodeRequestState::AwaitCodeStored("a@b".to_string(), 345678),
        CodeRequestEvent::CodeStored(Err("e1".to_string())),
    ));
    assert_eq!((r.status, info(&r)), (Status::BadRequest, "e1".to_string()));
    let r = request_reply(get_email(CodeRequestState::AwaitMail, CodeRequestEvent::MailSent(Err("e2".to_string()))));
    assert_eq!((r.status, info(&r)), (Status::BadRequest, "e2".to_string()));
}

#[test]
fn code_request_done() {
    let r = request_reply(get_email(CodeRequestState::AwaitMail, CodeRequestEvent::MailSent(Ok(()))));
    assert_eq!((r.status, info(&r)), (Status::Success, "Added successfuly".to_string()));
}

fn reset_form(otp: &str) -> ForgottenPassword {
    ForgottenPassword { otp: otp.to_string(), password: "new-pw".to_string() }
}

fn awaiting(otp: &str) -> ResetState {
    ResetState::AwaitRecord("a@b".to_string(), reset_form(otp))
}

#[test]
fn reset_fetches_code() {
    let ev = ResetEvent::Submitted(EmailInfo { email: "a@b".to_string() }, reset_form("111111"));
    match forgotten_password(ResetState::Idle, ev) {
        (ResetState::AwaitRecord(e, f), ResetAction::FetchResetCode(q)) => {
            assert_eq!((e.as_str(), f.otp.as_str(), q.as_str()), ("a@b", "111111", "a@b"));
        },
        _ => panic!("expected a lookup"),
    }
}

#[test]
fn reset_lookup_fails() {
    let r = reset_reply(forgotten_password(awaiting("111111"), ResetEvent::RecordFetched(Err("e".to_string()))));
    assert_eq!((r.status, info(&r)), (Status::InternalServerError, "e".to_string()));
}

#[test]
fn reset_without_code() {
    let rec = CodeRecord { code: None, created_at: Some(0) };
    let r = reset_reply(forgotten_password(awaiting("111111"), ResetEvent::RecordFetched(Ok(rec))));
    assert_eq!((r.status, info(&r)), (Status::BadRequest, "Unable to get the Otp".to_string()));
}

#[test]
fn reset_expired_code() {
    let rec = CodeRecord { code: Some("111111".to_string()), created_at: Some(0) };
    let r = reset_reply(forgotten_password(awaiting("111111"), ResetEvent::RecordFetched(Ok(rec))));
    assert_eq!((r.status, info(&r)), (Status::Success, "Otp expired pls request a new one".to_string()));
}

#[test]
fn reset_wrong_code() {
    let now = chrono::Utc::now().timestamp_micros();
    let rec = CodeRecord { code: Some("222222".to_string()), created_at: Some(now) };
    let r = reset_reply(forgotten_password(awaiting("111111"), ResetEvent::RecordFetched(Ok(rec))));
    assert_eq!(
        (r.status, info(&r)),
        (Status::NonAuthoritativeInformation, "Unable to validate the Otp ,Wrong OTP".to_string())
    );
}

#[test]
fn reset_right_code_stores_new_hash() {
    let now = chrono::Utc::now().timestamp_micros();
    let rec = CodeRecord { code: Some("111111".to_string()), created_at: Some(now) };
    match forgotten_password(awaiting("111111"), ResetEvent::RecordFetched(Ok(rec))) {
        (ResetState::AwaitPasswordStored, ResetAction::StorePassword(e, h)) => {
            assert_eq!(e, "a@b");
            assert_ne!(h, "new-pw");
            assert_eq!(h.len(), 60);
            assert!(h.starts_with("$2b$12$"));
            assert!(bcrypt::verify("new-pw", &h).unwrap());
        },
        _ => panic!("expected the password to be stored"),
    }
}

#[test]
fn reset_at_the_five_minute_boundary() {
    let created = 10;
    let rec = || CodeRecord { code: Some("111111".to_string()), created_at: Some(created) };
    match check_reset_code("a@b".to_string(), reset_form("111111"), rec(), created + 359_999_999, Ok("h".to_string())) {
        (ResetState::AwaitPasswordStored, ResetAction::StorePassword(e, h)) => {
            assert_eq!((e.as_str(), h.as_str()), ("a@b", "h"));
        },
        _ => panic!("expected the password to be stored"),
    }
    let r = reset_reply(check_reset_code("a@b".to_string(), reset_form("111111"), rec(), created + 360_000_000, Ok("h".to_string())));
    assert_eq!(info(&r), "Otp expired pls request a new one");
}

#[test]
fn reset_hash_failure() {
    let rec = CodeRecord { code: Some("111111".to_string()), created_at: Some(0) };
    let r = reset_reply(check_reset_code("a@b".to_string(), reset_form("111111"), rec, 5, Err("Rand error".to_string())));
    assert_eq!((r.status, info(&r)), (Status::BadRequest, "Rand error".to_string()));
}

#[test]
fn reset_password_stored() {
    let r = reset_reply(forgotten_password(ResetState::AwaitPasswordStored, ResetEvent::PasswordStored(Ok(()))));
    assert_eq!((r.status, info(&r)), (Status::Success, "Password Reset Sucessfull".to_string()));
    let r = reset_reply(forgotten_password(ResetState::AwaitPasswordStored, ResetEvent::PasswordStored(Err("e".to_string()))));
    assert_eq!((r.status, info(&r)), (Status::BadRequest, "e".to_string()));
}
