//! Sign-up: refuse a used e-mail address or phone number, store the new
//! student with a bcrypt hash of the password and a six-digit code, and
//! mail the code.

use crate::code::{code_text, decimal};
use crate::external::{
    bcrypt_verify_outcome, default_cost, hash_password, is_bcrypt_hash, is_rand_error_text,
    now_micros, random_in,
};
use crate::models::{Signup, SignupView};
use crate::reply::{
    info, info_reason, info_reply, message_reply, reason_reply, res_text, res_text_text, Body, BodyView, Mail,
    MailView, Reply, ReplyView, Status,
};
use crate::text::joined;
use vstd::prelude::*;
use vstd::string::*;

verus! {

/// The row that sign-up inserts.
pub struct NewStudent {
    pub name: String,
    pub email: String,
    pub phone: String,
    pub course: String,
    pub password_hash: String,
    /// The code mailed for e-mail verification.
    pub email_code: String,
    /// When the code was made, in microseconds since the Unix epoch.
    pub code_created_at: i64,
}

pub struct NewStudentView {
    pub name: Seq<char>,
    pub email: Seq<char>,
    pub phone: Seq<char>,
    pub course: Seq<char>,
    pub password_hash: Seq<char>,
    pub email_code: Seq<char>,
    pub code_created_at: int,
}

impl View for NewStudent {
    type V = NewStudentView;

    open spec fn view(&self) -> NewStudentView {
        NewStudentView {
            name: self.name@,
            email: self.email@,
            phone: self.phone@,
            course: self.course@,
            password_hash: self.password_hash@,
            email_code: self.email_code@,
            code_created_at: self.code_created_at as int,
        }
    }
}

pub enum SignupState {
    Idle,
    AwaitEmailCheck(Signup),
    AwaitPhoneCheck(Signup),
    /// Waiting for the insert; the code that was stored.
    AwaitInsert(Signup, i32),
    AwaitMail(Signup),
    Finished,
}

pub enum SignupStateView {
    Idle,
    AwaitEmailCheck(SignupView),
    AwaitPhoneCheck(SignupView),
    AwaitInsert(SignupView, int),
    AwaitMail(SignupView),
    Finished,
}

impl View for SignupState {
    type V = SignupStateView;

    open spec fn view(&self) -> SignupStateView {
        match self {
            SignupState::Idle => SignupStateView::Idle,
            SignupState::AwaitEmailCheck(f) => SignupStateView::AwaitEmailCheck(f@),
            SignupState::AwaitPhoneCheck(f) => SignupStateView::AwaitPhoneCheck(f@),
            SignupState::AwaitInsert(f, c) => SignupStateView::AwaitInsert(f@, *c as int),
            SignupState::AwaitMail(f) => SignupStateView::AwaitMail(f@),
            SignupState::Finished => SignupStateView::Finished,
        }
    }
}

pub enum SignupEvent {
    Submitted(Signup),
    /// Whether a student with the e-mail address exists.
    EmailChecked(Result<bool, String>),
    /// Whether a student with the phone number exists.
    PhoneChecked(Result<bool, String>),
    /// The insert returned the stored e-mail address.
    Inserted(Result<String, String>),
    MailSent(Result<(), String>),
}

pub enum SignupEventView {
    Submitted(SignupView),
    EmailChecked(Result<bool, Seq<char>>),
    PhoneChecked(Result<bool, Seq<char>>),
    Inserted(Result<Seq<char>, Seq<char>>),
    MailSent(Result<(), Seq<char>>),
}

impl View for SignupEvent {
    type V = SignupEventView;

    open spec fn view(&self) -> SignupEventView {
        match self {
            SignupEvent::Submitted(f) => SignupEventView::Submitted(f@),
            SignupEvent::EmailChecked(r) => SignupEventView::EmailChecked(res_text(*r)),
            SignupEvent::PhoneChecked(r) => SignupEventView::PhoneChecked(res_text(*r)),
            SignupEvent::Inserted(r) => SignupEventView::Inserted(
                match r {
                    Ok(a) => Ok(a@),
                    Err(m) => Err(m@),
                },
            ),
            SignupEvent::MailSent(r) => SignupEventView::MailSent(res_text(*r)),
        }
    }
}

pub enum SignupAction {
    /// Look up a student by e-mail address.
    FindEmail(String),
    /// Look up a student by phone number.
    FindPhone(String),
    /// Insert the student and return its e-mail address.
    Insert(NewStudent),
    SendMail(Mail),
    Respond(Reply),
}

pub enum SignupActionView {
    FindEmail(Seq<char>),
    FindPhone(Seq<char>),
    Insert(NewStudentView),
    SendMail(MailView),
    Respond(ReplyView),
}

impl View for SignupAction {
    type V = SignupActionView;

    open spec fn view(&self) -> SignupActionView {
        match self {
            SignupAction::FindEmail(e) => SignupActionView::FindEmail(e@),
            SignupAction::FindPhone(p) => SignupActionView::FindPhone(p@),
            SignupAction::Insert(s) => SignupActionView::Insert(s@),
            SignupAction::SendMail(m) => SignupActionView::SendMail(m@),
            SignupAction::Respond(r) => SignupActionView::Respond(r@),
        }
    }
}

/// The events that each state waits for.
pub open spec fn signup_accepts(s: SignupStateView, e: SignupEventView) -> bool {
    match (s, e) {
        (SignupStateView::Idle, SignupEventView::Submitted(_)) => true,
        (SignupStateView::AwaitEmailCheck(_), SignupEventView::EmailChecked(_)) => true,
        (SignupStateView::AwaitPhoneCheck(_), SignupEventView::PhoneChecked(_)) => true,
        (SignupStateView::AwaitInsert(_, c), SignupEventView::Inserted(_)) => 0 <= c,
        (SignupStateView::AwaitMail(_), SignupEventView::MailSent(_)) => true,
        _ => false,
    }
}

/// What the outside calls of a sign-up step can give back: the hash of
/// the password (or the text of the error), the code and the clock.
pub open spec fn signup_draw_ok(
    s: SignupStateView,
    hashed: Result<Seq<char>, Seq<char>>,
    code: int,
    now: int,
) -> bool {
    &&& 100000 <= code < 999999
    &&& i64::MIN <= now <= i64::MAX
    &&& (s matches SignupStateView::AwaitPhoneCheck(f) ==> (hashed matches Ok(h) ==> {
        &&& is_bcrypt_hash(h, 12)
        &&& bcrypt_verify_outcome(f.password, h) == Ok::<bool, Seq<char>>(true)
    }) && (hashed matches Err(t) ==> is_rand_error_text(t)))
}

pub open spec fn signup_finish(r: ReplyView) -> (SignupStateView, SignupActionView) {
    (SignupStateView::Finished, SignupActionView::Respond(r))
}

/// The student row that sign-up inserts.
pub open spec fn new_student(f: SignupView, hash: Seq<char>, code: int, now: int) -> NewStudentView {
    NewStudentView {
        name: f.name,
        email: f.email,
        phone: f.phone,
        course: f.course,
        password_hash: hash,
        email_code: decimal(code as nat),
        code_created_at: now,
    }
}

/// The verification mail.
pub open spec fn signup_mail(to: Seq<char>, code: int) -> MailView {
    MailView {
        to,
        subject: "Verify Your Email Address"@,
        body: "Your OTP is: "@ + decimal(code as nat),
    }
}

/// The next state and action of sign-up, given what the outside calls
/// of this step gave back (used only once both checks found nothing).
pub open spec fn signup_next(
    s: SignupStateView,
    e: SignupEventView,
    hashed: Result<Seq<char>, Seq<char>>,
    code: int,
    now: int,
) -> (SignupStateView, SignupActionView) {
    match (s, e) {
        (SignupStateView::Idle, SignupEventView::Submitted(f)) => (
            SignupStateView::AwaitEmailCheck(f),
            SignupActionView::FindEmail(f.email),
        ),
        (SignupStateView::AwaitEmailCheck(f), SignupEventView::EmailChecked(r)) => match r {
            Ok(true) => signup_finish(
                info(Status::Conflict, "Email already in use, please login"@),
            ),
            Ok(false) => (SignupStateView::AwaitPhoneCheck(f), SignupActionView::FindPhone(f.phone)),
            Err(m) => signup_finish(
                info_reason(Status::InternalServerError, "Database error checking email"@, m),
            ),
        },
        (SignupStateView::AwaitPhoneCheck(f), SignupEventView::PhoneChecked(r)) => match r {
            Ok(true) => signup_finish(
                info(Status::Conflict, "Phone number already in use, please login"@),
            ),
            Err(m) => signup_finish(
                info_reason(Status::InternalServerError, "Database error checking phone"@, m),
            ),
            Ok(false) => match hashed {
                Err(t) => signup_finish(
                    info_reason(Status::InternalServerError, "Unable to encrypt the password"@, t),
                ),
                Ok(h) => (
                    SignupStateView::AwaitInsert(f, code),
                    SignupActionView::Insert(new_student(f, h, code, now)),
                ),
            },
        },
        (SignupStateView::AwaitInsert(f, c), SignupEventView::Inserted(r)) => match r {
            Ok(addr) => (SignupStateView::AwaitMail(f), SignupActionView::SendMail(signup_mail(addr, c))),
            Err(m) => signup_finish(
                info_reason(Status::InternalServerError, "Failed to save student"@, m),
            ),
        },
        (SignupStateView::AwaitMail(f), SignupEventView::MailSent(r)) => match r {
            Ok(_) => signup_finish(
                ReplyView {
                    status: Status::Success,
                    body: BodyView::InfoWithEmail(
                        "Signup successful. Please verify your email."@,
                        f.email,
                    ),
                    session: None,
                },
            ),
            Err(m) => signup_finish(info(Status::BadRequest, m)),
        },
        _ => arbitrary(),
    }
}

/// Once neither the e-mail address nor the phone number is in use: the
/// step, given the hash of the password (or the error's text), the code
/// and the time.
pub fn register_student(form: Signup, hashed: Result<String, String>, code: i32, now: i64) -> (res: (
    SignupState,
    SignupAction,
))
    requires
        100000 <= code < 999999,
    ensures
        (res.0@, res.1@) == signup_next(
            SignupStateView::AwaitPhoneCheck(form@),
            SignupEventView::PhoneChecked(Ok(false)),
            res_text_text(hashed),
            code as int,
            now as int,
        ),
{
    match hashed {
        Err(t) => (
            SignupState::Finished,
            SignupAction::Respond(
                reason_reply(Status::InternalServerError, "Unable to encrypt the password", t),
            ),
        ),
        Ok(h) => {
            let row = NewStudent {
                name: form.name.clone(),
                email: form.email.clone(),
                phone: form.phone.clone(),
                course: form.course.clone(),
                password_hash: h,
                email_code: code_text(code),
                code_created_at: now,
            };
            (SignupState::AwaitInsert(form, code), SignupAction::Insert(row))
        },
    }
}

/// One step of sign-up: from the state and the event that arrived, the
/// next state and what to do. Once both checks found nothing it hashes
/// the password, draws the code and reads the clock itself; the result is
/// then `signup_next` for some such outcomes.
pub fn student_signup(state: SignupState, event: SignupEvent) -> (res: (SignupState, SignupAction))
    requires
        signup_accepts(state@, event@),
    ensures
        exists|hashed: Result<Seq<char>, Seq<char>>, code: int, now: int|
            signup_draw_ok(state@, hashed, code, now) && (res.0@, res.1@) == #[trigger] signup_next(
                state@,
                event@,
                hashed,
                code,
                now,
            ),
{
    let ghost s0 = state@;
    let ghost e0 = event@;
    let ghost no_draw: Result<Seq<char>, Seq<char>> = Err("Rand error: "@);
    match state {
        SignupState::Idle => match event {
            SignupEvent::Submitted(f) => {
                let email = f.email.clone();
                let res = (SignupState::AwaitEmailCheck(f), SignupAction::FindEmail(email));
                assert((res.0@, res.1@) == signup_next(s0, e0, no_draw, 100000, 0));
                res
            },
            _ => {
                proof {
                    assert(false);
                }
                (SignupState::Finished, SignupAction::Respond(info_reply(Status::BadRequest, "")))
            },
        },
        SignupState::AwaitEmailCheck(f) => match event {
            SignupEvent::EmailChecked(r) => {
                let res = match r {
                    Ok(true) => (
                        SignupState::Finished,
                        SignupAction::Respond(
                            info_reply(Status::Conflict, "Email already in use, please login"),
                        ),
                    ),
                    Ok(false) => {
                        let phone = f.phone.clone();
                        (SignupState::AwaitPhoneCheck(f), SignupAction::FindPhone(phone))
                    },
                    Err(m) => (
                        SignupState::Finished,
                        SignupAction::Respond(
                            reason_reply(
                                Status::InternalServerError,
                                "Database error checking email",
                                m,
                            ),
                        ),
                    ),
                };
                assert((res.0@, res.1@) == signup_next(s0, e0, no_draw, 100000, 0));
                res
            },
            _ => {
                proof {
                    assert(false);
                }
                (SignupState::Finished, SignupAction::Respond(info_reply(Status::BadRequest, "")))
            },
        },
        SignupState::AwaitPhoneCheck(f) => match event {
            SignupEvent::PhoneChecked(r) => match r {
                Ok(true) => {
                    let res = (
                        SignupState::Finished,
                        SignupAction::Respond(
                            info_reply(Status::Conflict, "Phone number already in use, please login"),
                        ),
                    );
                    assert((res.0@, res.1@) == signup_next(s0, e0, no_draw, 100000, 0));
                    res
                },
                Err(m) => {
                    let res = (
                        SignupState::Finished,
                        SignupAction::Respond(
                            reason_reply(
                                Status::InternalServerError,
                                "Database error checking phone",
                                m,
                            ),
                        ),
                    );
                    assert((res.0@, res.1@) == signup_next(s0, e0, no_draw, 100000, 0));
                    res
                },
                Ok(false) => {
                    let hashed = hash_password(f.password.as_str(), default_cost());
                    let ghost hv = res_text_text(hashed);
                    let code = random_in(100000, 999999);
                    let now = now_micros();
                    let res = register_student(f, hashed, code, now);
                    assert(signup_draw_ok(s0, hv, code as int, now as int));
                    assert((res.0@, res.1@) == signup_next(s0, e0, hv, code as int, now as int));
                    res
                },
            },
            _ => {
                proof {
                    assert(false);
                }
                (SignupState::Finished, SignupAction::Respond(info_reply(Status::BadRequest, "")))
            },
        },
        SignupState::AwaitInsert(f, code) => match event {
            SignupEvent::Inserted(r) => {
                let res = match r {
                    Ok(addr) => {
                        let mail = Mail {
                            to: addr,
                            subject: String::from_str("Verify Your Email Address"),
                            body: joined("Your OTP is: ", code_text(code).as_str()),
                        };
                        (SignupState::AwaitMail(f), SignupAction::SendMail(mail))
                    },
                    Err(m) => (
                        SignupState::Finished,
                        SignupAction::Respond(
                            reason_reply(Status::InternalServerError, "Failed to save student", m),
                        ),
                    ),
                };
                assert((res.0@, res.1@) == signup_next(s0, e0, no_draw, 100000, 0));
                res
            },
            _ => {
                proof {
                    assert(false);
                }
                (SignupState::Finished, SignupAction::Respond(info_reply(Status::BadRequest, "")))
            },
        },
        SignupState::AwaitMail(f) => match event {
            SignupEvent::MailSent(r) => {
                let res = match r {
                    Ok(_) => (
                        SignupState::Finished,
                        SignupAction::Respond(
                            Reply {
                                status: Status::Success,
                                body: Body::InfoWithEmail(
                                    String::from_str("Signup successful. Please verify your email."),
                                    f.email,
                                ),
                                session: None,
                            },
                        ),
                    ),
                    Err(m) => (
                        SignupState::Finished,
                        SignupAction::Respond(message_reply(Status::BadRequest, m)),
                    ),
                };
                assert((res.0@, res.1@) == signup_next(s0, e0, no_draw, 100000, 0));
                res
            },
            _ => {
                proof {
                    assert(false);
                }
                (SignupState::Finished, SignupAction::Respond(info_reply(Status::BadRequest, "")))
            },
        },
        SignupState::Finished => {
            proof {
                assert(false);
            }
            (SignupState::Finished, SignupAction::Respond(info_reply(Status::BadRequest, "")))
        },
    }
}

} // verus!
