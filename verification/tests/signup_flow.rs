use student_portal::models::Signup;
use student_portal::reply::{Body, Reply, Status};
use student_portal::signup::{
    register_student, student_signup, NewStudent, SignupAction, SignupEvent, SignupState,
};

fn form() -> Signup {
    Signup {
        name: "Ada".to_string(),
        email: "ada@example.com".to_string(),
        phone: "0123".to_string(),
        course: "graphics".to_string(),
        password: "s3cret".to_string(),
    }
}

fn finished(res: (SignupState, SignupAction)) -> Reply {
    match res {
        (SignupState::Finished, SignupAction::Respond(r)) => r,
        _ => panic!("expected a reply"),
    }
}

fn info_reason(r: &Reply) -> (String, String) {
    match &r.body {
        Body::InfoWithReason(i, reason) => (i.clone(), reason.clone()),
        _ => panic!("expected info and reason"),
    }
}

fn info(r: &Reply) -> String {
    match &r.body {
        Body::Info(i) => i.clone(),
        _ => panic!("expected info"),
    }
}

#[test]
fn signup_starts_with_email_lookup() {
    match student_signup(SignupState::Idle, SignupEvent::Submitted(form())) {
        (SignupState::AwaitEmailCheck(f), SignupAction::FindEmail(e)) => {
            assert_eq!(e, "ada@example.com");
            assert_eq!(f.name, "Ada");
        },
        _ => panic!("expected an e-mail lookup"),
    }
}

#[test]
fn signup_email_in_use() {
    let r = finished(student_signup(SignupState::AwaitEmailCheck(form()), SignupEvent::EmailChecked(Ok(true))));
    assert_eq!(r.status, Status::Conflict);
    assert_eq!(info(&r), "Email already in use, please login");
}

#[test]
fn signup_email_lookup_fails() {
    let r = finished(student_signup(
        SignupState::AwaitEmailCheck(form()),
        SignupEvent::EmailChecked(Err("db down".to_string())),
    ));
    assert_eq!(r.status, Status::InternalServerError);
    assert_eq!(info_reason(&r), ("Database error checking email".to_string(), "db down".to_string()));
}

#[test]
fn signup_email_free_then_phone_lookup() {
    match student_signup(SignupState::AwaitEmailCheck(form()), SignupEvent::EmailChecked(Ok(false))) {
        (SignupState::AwaitPhoneCheck(_), SignupAction::FindPhone(p)) => assert_eq!(p, "0123"),
        _ => panic!("expected a phone lookup"),
    }
}

#[test]
fn signup_phone_in_use() {
    let r = finished(student_signup(SignupState::AwaitPhoneCheck(form()), SignupEvent::PhoneChecked(Ok(true))));
    assert_eq!(r.status, Status::Conflict);
    assert_eq!(info(&r), "Phone number already in use, please login");
}

#[test]
fn signup_phone_lookup_fails() {
    let r = finished(student_signup(
        SignupState::AwaitPhoneCheck(form()),
        SignupEvent::PhoneChecked(Err("timeout".to_string())),
    ));
    assert_eq!(r.status, Status::InternalServerError);
    assert_eq!(info_reason(&r), ("Database error checking phone".to_string(), "timeout".to_string()));
}

#[test]
fn signup_hash_failure() {
    let r = finished(register_student(form(), Err("Rand error: none".to_string()), 123456, 0));
    assert_eq!(r.status, Status::InternalServerError);
    assert_eq!(
        info_reason(&r),
        ("Unable to encrypt the password".to_string(), "Rand error: none".to_string())
    );
}

#[test]
fn register_student_builds_row() {
    match register_student(form(), Ok("$2b$hash".to_string()), 654321, 42) {
        (SignupState::AwaitInsert(_, code), SignupAction::Insert(row)) => {
            assert_eq!(code, 654321);
            assert_eq!(row.name, "Ada");
            assert_eq!(row.email, "ada@example.com");
            assert_eq!(row.phone, "0123");
            assert_eq!(row.course, "graphics");
            assert_eq!(row.password_hash, "$2b$hash");
            assert_eq!(row.email_code, "654321");
            assert_eq!(row.code_created_at, 42);
        },
        _ => panic!("expected an insert"),
    }
}

fn new_row() -> (i32, NewStudent) {
    match student_signup(SignupState::AwaitPhoneCheck(form()), SignupEvent::PhoneChecked(Ok(false))) {
        (SignupState::AwaitInsert(_, code), SignupAction::Insert(row)) => (code, row),
        _ => panic!("expected an insert"),
    }
}

#[test]
fn signup_hashes_password_and_draws_code() {
    let before = chrono::Utc::now().timestamp_micros();
    let (code, row) = new_row();
    let after = chrono::Utc::now().timestamp_micros();
    assert!((100000..999999).contains(&code));
    assert_eq!(row.email_code, code.to_string());
    assert_eq!(row.email_code.len(), 6);
    assert!(before <= row.code_created_at && row.code_created_at <= after);
    assert_ne!(row.password_hash, "s3cret");
    assert!(row.password_hash.starts_with("$2b$12$"));
    assert!(bcrypt::verify("s3cret", &row.password_hash).unwrap());
    assert!(!bcrypt::verify("other", &row.password_hash).unwrap());
}

#[test]
fn signup_mails_the_code() {
    match student_signup(
        SignupState::AwaitInsert(form(), 123456),
        SignupEvent::Inserted(Ok("ada@example.com".to_string())),
    ) {
        (SignupState::AwaitMail(_), SignupAction::SendMail(m)) => {
            assert_eq!(m.to, "ada@example.com");
            assert_eq!(m.subject, "Verify Your Email Address");
            assert_eq!(m.body, "Your OTP is: 123456");
        },
        _ => panic!("expected a mail"),
    }
}

#[test]
fn signup_insert_fails() {
    let r = finished(student_signup(
        SignupState::AwaitInsert(form(), 123456),
        SignupEvent::Inserted(Err("duplicate key".to_string())),
    ));
    assert_eq!(r.status, Status::InternalServerError);
    assert_eq!(info_reason(&r), ("Failed to save student".to_string(), "duplicate key".to_string()));
}

#[test]
fn signup_succeeds_after_mail() {
    let r = finished(student_signup(SignupState::AwaitMail(form()), SignupEvent::MailSent(Ok(()))));
    assert_eq!(r.status, Status::Success);
    match r.body {
        Body::InfoWithEmail(i, e) => {
            assert_eq!(i, "Signup successful. Please verify your email.");
            assert_eq!(e, "ada@example.com");
        },
        _ => panic!("expected info and email"),
    }
}

#[test]
fn signup_mail_fails() {
    let r = finished(student_signup(
        SignupState::AwaitMail(form()),
        SignupEvent::MailSent(Err("smtp refused".to_string())),
    ));
    assert_eq!(r.status, Status::BadRequest);
    assert_eq!(info(&r), "smtp refused");
}

#[test]
fn hashing_errors_carry_bcrypt_text() {
    match student_portal::external::hash_password("pw", 3) {
        Err(t) => assert_eq!(t, "Cost needs to be between 4 and 31, got 3"),
        Ok(_) => panic!("cost 3 is refused"),
    }
    let h = student_portal::external::hash_password("pw", 4).unwrap();
    assert_eq!(h.len(), 60);
    assert!(h.starts_with("$2b$04$"));
}

#[test]
fn signup_replies_hold_neither_password_nor_code() {
    let replies = [
        finished(student_signup(SignupState::AwaitEmailCheck(form()), SignupEvent::EmailChecked(Ok(true)))),
        finished(student_signup(SignupState::AwaitPhoneCheck(form()), SignupEvent::PhoneChecked(Ok(true)))),
        finished(student_signup(SignupState::AwaitMail(form()), SignupEvent::MailSent(Ok(())))),
    ];
    for r in replies {
        let texts = match r.body {
            Body::Info(i) => vec![i],
            Body::InfoWithReason(i, x) | Body::InfoWithEmail(i, x) => vec![i, x],
            Body::Path(p) => vec![p],
        };
        for t in texts {
            assert!(!t.contains("s3cret"));
        }
    }
}
