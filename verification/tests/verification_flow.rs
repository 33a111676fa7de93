use student_portal::email_verification::{
    check_email_code, verify_email, CodeRecord, VerifyAction, VerifyEvent, VerifyState,
};
use student_portal::models::{Email, VerifyEmail};
use student_portal::reply::{Body, Reply, Status};

fn finished(res: (VerifyState, VerifyAction)) -> Reply {
    match res {
        (VerifyState::Finished, VerifyAction::Respond(r)) => r,
        _ => panic!("expected a reply"),
    }
}

fn info(r: &Reply) -> String {
    match &r.body {
        Body::Info(i) => i.clone(),
        _ => panic!("expected info"),
    }
}

fn awaiting() -> VerifyState {
    VerifyState::AwaitRecord("ada@example.com".to_string(), "123456".to_string())
}

fn record(code: &str, created: Option<i64>) -> CodeRecord {
    CodeRecord { code: Some(code.to_string()), created_at: created }
}

#[test]
fn verification_fetches_code_of_query_address() {
    let ev = VerifyEvent::Submitted(
        Email { email: "ada@example.com".to_string() },
        VerifyEmail { otp: "123456".to_string() },
    );
    match verify_email(VerifyState::Idle, ev) {
        (VerifyState::AwaitRecord(e, o), VerifyAction::FetchCode(q)) => {
            assert_eq!(e, "ada@example.com");
            assert_eq!(o, "123456");
            assert_eq!(q, "ada@example.com");
        },
        _ => panic!("expected a lookup"),
    }
}

#[test]
fn verification_student_not_found() {
    let r = finished(verify_email(awaiting(), VerifyEvent::RecordFetched(Ok(None))));
    assert_eq!(r.status, Status::NotFound);
    assert_eq!(info(&r), "Student not found");
}

#[test]
fn verification_lookup_fails() {
    let r = finished(verify_email(awaiting(), VerifyEvent::RecordFetched(Err("db".to_string()))));
    assert_eq!(r.status, Status::InternalServerError);
    assert_eq!(info(&r), "db");
}

#[test]
fn verification_wrong_code() {
    let r = finished(verify_email(
        awaiting(),
        VerifyEvent::RecordFetched(Ok(Some(record("654321", Some(0))))),
    ));
    assert_eq!(r.status, Status::BadRequest);
    assert_eq!(info(&r), "Invalid OTP");
}

#[test]
fn verification_expired_code() {
    let r = finished(verify_email(
        awaiting(),
        VerifyEvent::RecordFetched(Ok(Some(record("123456", Some(0))))),
    ));
    assert_eq!(r.status, Status::BadRequest);
    assert_eq!(info(&r), "OTP has expired");
}

#[test]
fn verification_fresh_code_marks_verified() {
    let now = chrono::Utc::now().timestamp_micros();
    match verify_email(awaiting(), VerifyEvent::RecordFetched(Ok(Some(record("123456", Some(now)))))) {
        (VerifyState::AwaitUpdate, VerifyAction::MarkVerified(m)) => {
            assert_eq!(m.email, "ada@example.com");
            assert!(m.verified);
            assert_eq!(m.code, "nil");
        },
        _ => panic!("expected the update"),
    }
}

#[test]
fn verification_code_without_time_marks_verified() {
    match verify_email(awaiting(), VerifyEvent::RecordFetched(Ok(Some(record("123456", None))))) {
        (VerifyState::AwaitUpdate, VerifyAction::MarkVerified(m)) => {
            assert_eq!(m.email, "ada@example.com");
            assert!(m.verified);
            assert_eq!(m.code, "nil");
        },
        _ => panic!("expected the update"),
    }
}

#[test]
fn verification_at_the_three_minute_boundary() {
    let created = 1_000_000;
    let at = |now: i64| {
        check_email_code(
            "a@b".to_string(),
            "123456".to_string(),
            record("123456", Some(created)),
            now,
        )
    };
    match at(created + 3 * 60_000_000 + 59_999_999) {
        (VerifyState::AwaitUpdate, VerifyAction::MarkVerified(_)) => {},
        _ => panic!("expected the update"),
    }
    let r = finished(at(created + 4 * 60_000_000));
    assert_eq!(info(&r), "OTP has expired");
}

#[test]
fn verification_update_done() {
    let r = finished(verify_email(VerifyState::AwaitUpdate, VerifyEvent::Updated(Ok(()))));
    assert_eq!(r.status, Status::Success);
    assert_eq!(info(&r), "Email verified, you can now login");
}

#[test]
fn verification_update_fails() {
    let r = finished(verify_email(VerifyState::AwaitUpdate, VerifyEvent::Updated(Err("x".to_string()))));
    assert_eq!(r.status, Status::InternalServerError);
    assert_eq!(info(&r), "x");
}

#[test]
fn verification_code_accepted_only_once() {
    let now = chrono::Utc::now().timestamp_micros();
    let mark = match verify_email(awaiting(), VerifyEvent::RecordFetched(Ok(Some(record("123456", Some(now)))))) {
        (VerifyState::AwaitUpdate, VerifyAction::MarkVerified(m)) => m,
        _ => panic!("expected the update"),
    };
    let again = CodeRecord { code: Some(mark.code.clone()), created_at: Some(now) };
    let r = finished(verify_email(
        VerifyState::AwaitRecord(mark.email.clone(), "123456".to_string()),
        VerifyEvent::RecordFetched(Ok(Some(again))),
    ));
    assert_eq!(r.status, Status::BadRequest);
    assert_eq!(info(&r), "Invalid OTP");
}
