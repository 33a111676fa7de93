//! Password reset in two requests: the first stores and mails a
//! six-digit code, the second checks it (at most five whole minutes old)
//! and stores a bcrypt hash of the new password.

use crate::code::{code_text, decimal};
use crate::email_verification::{CodeRecord, CodeRecordView};
use crate::expiry::{expired, is_expired};
use crate::external::{
    bcrypt_verify_outcome, default_cost, hash_password, is_bcrypt_hash, is_rand_error_text,
    now_micros, random_in,
};
use crate::models::{EmailInfo, ForgottenPassword, ForgottenPasswordView};
use crate::reply::{
    info, info_reply, message_reply, res_text, res_text_text, Mail, MailView, Reply, ReplyView,
    Status,
};
use vstd::prelude::*;
use vstd::string::*;

verus! {

/// A reset code to store with the student of the address.
pub struct ResetCode {
    pub email: String,
    pub code: String,
    /// When the code was made, in microseconds since the Unix epoch.
    pub created_at: i64,
}

pub struct ResetCodeView {
    pub email: Seq<char>,
    pub code: Seq<char>,
    pub created_at: int,
}

impl View for ResetCode {
    type V = ResetCodeView;

    open spec fn view(&self) -> ResetCodeView {
        ResetCodeView { email: self.email@, code: self.code@, created_at: self.created_at as int }
    }
}

pub enum CodeRequestState {
    Idle,
    AwaitAccount(String),
    /// Waiting for the code (second) of the address (first) to be stored.
    AwaitCodeStored(String, i32),
    AwaitMail,
    Finished,
}

pub enum CodeRequestStateView {
    Idle,
    AwaitAccount(Seq<char>),
    AwaitCodeStored(Seq<char>, int),
    AwaitMail,
    Finished,
}

impl View for CodeRequestState {
    type V = CodeRequestStateView;

    open spec fn view(&self) -> CodeRequestStateView {
        match self {
            CodeRequestState::Idle => CodeRequestStateView::Idle,
            CodeRequestState::AwaitAccount(e) => CodeRequestStateView::AwaitAccount(e@),
            CodeRequestState::AwaitCodeStored(e, c) => CodeRequestStateView::AwaitCodeStored(
                e@,
                *c as int,
            ),
            CodeRequestState::AwaitMail => CodeRequestStateView::AwaitMail,
            CodeRequestState::Finished => CodeRequestStateView::Finished,
        }
    }
}

pub enum CodeRequestEvent {
    Submitted(EmailInfo),
    /// Whether the lookup of a student with the address succeeded.
    AccountFound(Result<(), String>),
    CodeStored(Result<(), String>),
    MailSent(Result<(), String>),
}

pub enum CodeRequestEventView {
    Submitted(Seq<char>),
    AccountFound(Result<(), Seq<char>>),
    CodeStored(Result<(), Seq<char>>),
    MailSent(Result<(), Seq<char>>),
}

impl View for CodeRequestEvent {
    type V = CodeRequestEventView;

    open spec fn view(&self) -> CodeRequestEventView {
        match self {
            CodeRequestEvent::Submitted(f) => CodeRequestEventView::Submitted(f.email@),
            CodeRequestEvent::AccountFound(r) => CodeRequestEventView::AccountFound(res_text(*r)),
            CodeRequestEvent::CodeStored(r) => CodeRequestEventView::CodeStored(res_text(*r)),
            CodeRequestEvent::MailSent(r) => CodeRequestEventView::MailSent(res_text(*r)),
        }
    }
}

pub enum CodeRequestAction {
    /// Look up the student with this address.
    FindAccount(String),
    StoreResetCode(ResetCode),
    SendMail(Mail),
    Respond(Reply),
}

pub enum CodeRequestActionView {
    FindAccount(Seq<char>),
    StoreResetCode(ResetCodeView),
    SendMail(MailView),
    Respond(ReplyView),
}

impl View for CodeRequestAction {
    type V = CodeRequestActionView;

    open spec fn view(&self) -> CodeRequestActionView {
        match self {
            CodeRequestAction::FindAccount(e) => CodeRequestActionView::FindAccount(e@),
            CodeRequestAction::StoreResetCode(c) => CodeRequestActionView::StoreResetCode(c@),
            CodeRequestAction::SendMail(m) => CodeRequestActionView::SendMail(m@),
            CodeRequestAction::Respond(r) => CodeRequestActionView::Respond(r@),
        }
    }
}

/// The events that each state waits for.
pub open spec fn code_request_accepts(s: CodeRequestStateView, e: CodeRequestEventView) -> bool {
    match (s, e) {
        (CodeRequestStateView::Idle, CodeRequestEventView::Submitted(_)) => true,
        (CodeRequestStateView::AwaitAccount(_), CodeRequestEventView::AccountFound(_)) => true,
        (CodeRequestStateView::AwaitCodeStored(_, c), CodeRequestEventView::CodeStored(_)) => 0 <= c,
        (CodeRequestStateView::AwaitMail, CodeRequestEventView::MailSent(_)) => true,
        _ => false,
    }
}

pub open spec fn code_request_finish(r: ReplyView) -> (CodeRequestStateView, CodeRequestActionView) {
    (CodeRequestStateView::Finished, CodeRequestActionView::Respond(r))
}

/// The reset mail.
pub open spec fn reset_mail(to: Seq<char>, code: int) -> MailView {
    MailView { to, subject: "Sending Code for Password"@, body: decimal(code as nat) }
}

/// The next state and action of a code request, given the drawn code and
/// the clock.
pub open spec fn code_request_next(
    s: CodeRequestStateView,
    e: CodeRequestEventView,
    code: int,
    now: int,
) -> (CodeRequestStateView, CodeRequestActionView) {
    match (s, e) {
        (CodeRequestStateView::Idle, CodeRequestEventView::Submitted(email)) => (
            CodeRequestStateView::AwaitAccount(email),
            CodeRequestActionView::FindAccount(email),
        ),
        (CodeRequestStateView::AwaitAccount(email), CodeRequestEventView::AccountFound(r)) => match r {
            Err(m) => code_request_finish(info(Status::NotFound, m)),
            Ok(_) => (
                CodeRequestStateView::AwaitCodeStored(email, code),
                CodeRequestActionView::StoreResetCode(
                    ResetCodeView { email, code: decimal(code as nat), created_at: now },
                ),
            ),
        },
        (CodeRequestStateView::AwaitCodeStored(email, c), CodeRequestEventView::CodeStored(r)) => match r {
            Err(m) => code_request_finish(info(Status::BadRequest, m)),
            Ok(_) => (CodeRequestStateView::AwaitMail, CodeRequestActionView::SendMail(reset_mail(email, c))),
        },
        (CodeRequestStateView::AwaitMail, CodeRequestEventView::MailSent(r)) => match r {
            Err(m) => code_request_finish(info(Status::BadRequest, m)),
            Ok(_) => code_request_finish(info(Status::Success, "Added successfuly"@)),
        },
        _ => arbitrary(),
    }
}

/// Once the student is found: the step, given the drawn code and the time.
pub fn issue_reset_code(email: String, code: i32, now: i64) -> (res: (
    CodeRequestState,
    CodeRequestAction,
))
    requires
        100000 <= code < 999999,
    ensures
        (res.0@, res.1@) == code_request_next(
            CodeRequestStateView::AwaitAccount(email@),
            CodeRequestEventView::AccountFound(Ok(())),
            code as int,
            now as int,
        ),
{
    let row = ResetCode { email: email.clone(), code: code_text(code), created_at: now };
    (CodeRequestState::AwaitCodeStored(email, code), CodeRequestAction::StoreResetCode(row))
}

/// One step of a code request: from the state and the event that
/// arrived, the next state and what to do. Once the student is found it
/// draws the code and reads the clock itself; the result is
/// `code_request_next` for some such code and time.
pub fn get_email(state: CodeRequestState, event: CodeRequestEvent) -> (res: (
    CodeRequestState,
    CodeRequestAction,
))
    requires
        code_request_accepts(state@, event@),
    ensures
        exists|code: int, now: int|
            100000 <= code < 999999 && i64::MIN <= now <= i64::MAX && (res.0@, res.1@)
                == #[trigger] code_request_next(state@, event@, code, now),
{
    let ghost s0 = state@;
    let ghost e0 = event@;
    match state {
        CodeRequestState::Idle => match event {
            CodeRequestEvent::Submitted(f) => {
                let email = f.email.clone();
                let res = (CodeRequestState::AwaitAccount(f.email), CodeRequestAction::FindAccount(email));
                assert((res.0@, res.1@) == code_request_next(s0, e0, 100000, 0));
                res
            },
            _ => {
                proof {
                    assert(false);
                }
                (CodeRequestState::Finished, CodeRequestAction::Respond(info_reply(Status::BadRequest, "")))
            },
        },
        CodeRequestState::AwaitAccount(email) => match event {
            CodeRequestEvent::AccountFound(r) => match r {
                Err(m) => {
                    let res = (
                        CodeRequestState::Finished,
                        CodeRequestAction::Respond(message_reply(Status::NotFound, m)),
                    );
                    assert((res.0@, res.1@) == code_request_next(s0, e0, 100000, 0));
                    res
                },
                Ok(_) => {
                    let code = random_in(100000, 999999);
                    let now = now_micros();
                    let res = issue_reset_code(email, code, now);
                    assert((res.0@, res.1@) == code_request_next(s0, e0, code as int, now as int));
                    res
                },
            },
            _ => {
                proof {
                    assert(false);
                }
                (CodeRequestState::Finished, CodeRequestAction::Respond(info_reply(Status::BadRequest, "")))
            },
        },
        CodeRequestState::AwaitCodeStored(email, code) => match event {
            CodeRequestEvent::CodeStored(r) => {
                let res = match r {
                    Err(m) => (
                        CodeRequestState::Finished,
                        CodeRequestAction::Respond(message_reply(Status::BadRequest, m)),
                    ),
                    Ok(_) => {
                        let mail = Mail {
                            to: email,
                            subject: String::from_str("Sending Code for Password"),
                            body: code_text(code),
                        };
                        (CodeRequestState::AwaitMail, CodeRequestAction::SendMail(mail))
                    },
                };
                assert((res.0@, res.1@) == code_request_next(s0, e0, 100000, 0));
                res
            },
            _ => {
                proof {
                    assert(false);
                }
                (CodeRequestState::Finished, CodeRequestAction::Respond(info_reply(Status::BadRequest, "")))
            },
        },
        CodeRequestState::AwaitMail => match event {
            CodeRequestEvent::MailSent(r) => {
                let res = match r {
                    Err(m) => (
                        CodeRequestState::Finished,
                        CodeRequestAction::Respond(message_reply(Status::BadRequest, m)),
                    ),
                    Ok(_) => (
                        CodeRequestState::Finished,
                        CodeRequestAction::Respond(info_reply(Status::Success, "Added successfuly")),
                    ),
                };
                assert((res.0@, res.1@) == code_request_next(s0, e0, 100000, 0));
                res
            },
            _ => {
                proof {
                    assert(false);
                }
                (CodeRequestState::Finished, CodeRequestAction::Respond(info_reply(Status::BadRequest, "")))
            },
        },
        CodeRequestState::Finished => {
            proof {
                assert(false);
            }
            (CodeRequestState::Finished, CodeRequestAction::Respond(info_reply(Status::BadRequest, "")))
        },
    }
}

pub enum ResetState {
    Idle,
    /// Waiting for the stored code of the address; the form.
    AwaitRecord(String, ForgottenPassword),
    AwaitPasswordStored,
    Finished,
}

pub enum ResetStateView {
    Idle,
    AwaitRecord(Seq<char>, ForgottenPasswordView),
    AwaitPasswordStored,
    Finished,
}

impl View for ResetState {
    type V = ResetStateView;

    open spec fn view(&self) -> ResetStateView {
        match self {
            ResetState::Idle => ResetStateView::Idle,
            ResetState::AwaitRecord(e, f) => ResetStateView::AwaitRecord(e@, f@),
            ResetState::AwaitPasswordStored => ResetStateView::AwaitPasswordStored,
            ResetState::Finished => ResetStateView::Finished,
        }
    }
}

pub enum ResetEvent {
    /// The request: the address and the form.
    Submitted(EmailInfo, ForgottenPassword),
    /// The stored reset code of the address and when it was made.
    RecordFetched(Result<CodeRecord, String>),
    PasswordStored(Result<(), String>),
}

pub enum ResetEventView {
    Submitted(Seq<char>, ForgottenPasswordView),
    RecordFetched(Result<CodeRecordView, Seq<char>>),
    PasswordStored(Result<(), Seq<char>>),
}

impl View for ResetEvent {
    type V = ResetEventView;

    open spec fn view(&self) -> ResetEventView {
        match self {
            ResetEvent::Submitted(e, f) => ResetEventView::Submitted(e.email@, f@),
            ResetEvent::RecordFetched(r) => ResetEventView::RecordFetched(
                match r {
                    Ok(rec) => Ok(rec@),
                    Err(m) => Err(m@),
                },
            ),
            ResetEvent::PasswordStored(r) => ResetEventView::PasswordStored(res_text(*r)),
        }
    }
}

pub enum ResetAction {
    /// Fetch the stored reset code of this address.
    FetchResetCode(String),
    /// Store the hash (second) as the password of the address (first).
    StorePassword(String, String),
    Respond(Reply),
}

pub enum ResetActionView {
    FetchResetCode(Seq<char>),
    StorePassword(Seq<char>, Seq<char>),
    Respond(ReplyView),
}

impl View for ResetAction {
    type V = ResetActionView;

    open spec fn view(&self) -> ResetActionView {
        match self {
            ResetAction::FetchResetCode(e) => ResetActionView::FetchResetCode(e@),
            ResetAction::StorePassword(e, h) => ResetActionView::StorePassword(e@, h@),
            ResetAction::Respond(r) => ResetActionView::Respond(r@),
        }
    }
}

/// The events that each state waits for. A fetched record must have a
/// time: the check reads it unconditionally.
pub open spec fn reset_accepts(s: ResetStateView, e: ResetEventView) -> bool {
    match (s, e) {
        (ResetStateView::Idle, ResetEventView::Submitted(_, _)) => true,
        (ResetStateView::AwaitRecord(_, _), ResetEventView::RecordFetched(r)) => (r matches Ok(rec)
            ==> rec.created_at is Some),
        (ResetStateView::AwaitPasswordStored, ResetEventView::PasswordStored(_)) => true,
        _ => false,
    }
}

pub open spec fn reset_finish(r: ReplyView) -> (ResetStateView, ResetActionView) {
    (ResetStateView::Finished, ResetActionView::Respond(r))
}

/// The decision once the stored code is known, given the clock and the
/// hash of the new password (or the error's text).
pub open spec fn reset_decide(
    email: Seq<char>,
    f: ForgottenPasswordView,
    rec: CodeRecordView,
    now: int,
    hashed: Result<Seq<char>, Seq<char>>,
) -> (ResetStateView, ResetActionView) {
    match rec.code {
        None => reset_finish(info(Status::BadRequest, "Unable to get the Otp"@)),
        Some(code) => if is_expired(now, rec.created_at.unwrap(), 5) {
            reset_finish(info(Status::Success, "Otp expired pls request a new one"@))
        } else if code == f.otp {
            match hashed {
                Err(t) => reset_finish(info(Status::BadRequest, t)),
                Ok(h) => (ResetStateView::AwaitPasswordStored, ResetActionView::StorePassword(email, h)),
            }
        } else {
            reset_finish(
                info(Status::NonAuthoritativeInformation, "Unable to validate the Otp ,Wrong OTP"@),
            )
        },
    }
}

/// The next state and action of a password reset, given the clock and
/// the hash of the new password (or the error's text).
pub open spec fn reset_next(
    s: ResetStateView,
    e: ResetEventView,
    now: int,
    hashed: Result<Seq<char>, Seq<char>>,
) -> (ResetStateView, ResetActionView) {
    match (s, e) {
        (ResetStateView::Idle, ResetEventView::Submitted(email, f)) => (
            ResetStateView::AwaitRecord(email, f),
            ResetActionView::FetchResetCode(email),
        ),
        (ResetStateView::AwaitRecord(email, f), ResetEventView::RecordFetched(r)) => match r {
            Err(m) => reset_finish(info(Status::InternalServerError, m)),
            Ok(rec) => reset_decide(email, f, rec, now, hashed),
        },
        (ResetStateView::AwaitPasswordStored, ResetEventView::PasswordStored(r)) => match r {
            Ok(_) => reset_finish(info(Status::Success, "Password Reset Sucessfull"@)),
            Err(m) => reset_finish(info(Status::BadRequest, m)),
        },
        _ => arbitrary(),
    }
}

/// What the outside calls of a reset step can give back.
pub open spec fn reset_draw_ok(s: ResetStateView, now: int, hashed: Result<Seq<char>, Seq<char>>) -> bool {
    &&& i64::MIN <= now <= i64::MAX
    &&& (s matches ResetStateView::AwaitRecord(_, f) ==> (hashed matches Ok(h) ==> {
        &&& is_bcrypt_hash(h, 12)
        &&& bcrypt_verify_outcome(f.password, h) == Ok::<bool, Seq<char>>(true)
    }) && (hashed matches Err(t) ==> is_rand_error_text(t)))
}

/// The decision once the stored code is known, given the clock and the
/// hash of the new password (or the error's text).
pub fn check_reset_code(
    email: String,
    form: ForgottenPassword,
    rec: CodeRecord,
    now: i64,
    hashed: Result<String, String>,
) -> (res: (ResetState, ResetAction))
    requires
        rec.created_at is Some,
    ensures
        (res.0@, res.1@) == reset_decide(email@, form@, rec@, now as int, res_text_text(hashed)),
{
    let created = rec.created_at.unwrap();
    match rec.code {
        None => (
            ResetState::Finished,
            ResetAction::Respond(info_reply(Status::BadRequest, "Unable to get the Otp")),
        ),
        Some(code) => {
            if expired(now, created, 5) {
                (
                    ResetState::Finished,
                    ResetAction::Respond(
                        info_reply(Status::Success, "Otp expired pls request a new one"),
                    ),
                )
            } else if code == form.otp {
                match hashed {
                    Err(t) => (
                        ResetState::Finished,
                        ResetAction::Respond(message_reply(Status::BadRequest, t)),
                    ),
                    Ok(h) => (ResetState::AwaitPasswordStored, ResetAction::StorePassword(email, h)),
                }
            } else {
                (
                    ResetState::Finished,
                    ResetAction::Respond(
                        info_reply(
                            Status::NonAuthoritativeInformation,
                            "Unable to validate the Otp ,Wrong OTP",
                        ),
                    ),
                )
            }
        },
    }
}

/// One step of a password reset: from the state and the event that
/// arrived, the next state and what to do. It reads the clock, and hashes
/// the new password when the code matches, itself; the result is
/// `reset_next` for some such outcomes.
pub fn forgotten_password(state: ResetState, event: ResetEvent) -> (res: (ResetState, ResetAction))
    requires
        reset_accepts(state@, event@),
    ensures
        exists|now: int, hashed: Result<Seq<char>, Seq<char>>|
            reset_draw_ok(state@, now, hashed) && (res.0@, res.1@) == #[trigger] reset_next(
                state@,
                event@,
                now,
                hashed,
            ),
{
    let ghost s0 = state@;
    let ghost e0 = event@;
    let ghost no_hash: Result<Seq<char>, Seq<char>> = Err("Rand error: "@);
    match state {
        ResetState::Idle => match event {
            ResetEvent::Submitted(e, f) => {
                let email = e.email.clone();
                let res = (ResetState::AwaitRecord(e.email, f), ResetAction::FetchResetCode(email));
                assert((res.0@, res.1@) == reset_next(s0, e0, 0, no_hash));
                res
            },
            _ => {
                proof {
                    assert(false);
                }
                (ResetState::Finished, ResetAction::Respond(info_reply(Status::BadRequest, "")))
            },
        },
        ResetState::AwaitRecord(email, form) => match event {
            ResetEvent::RecordFetched(r) => match r {
                Err(m) => {
                    let res = (
                        ResetState::Finished,
                        ResetAction::Respond(message_reply(Status::InternalServerError, m)),
                    );
                    assert((res.0@, res.1@) == reset_next(s0, e0, 0, no_hash));
                    res
                },
                Ok(rec) => {
                    let created = rec.created_at.unwrap();
                    let now = if rec.code.is_some() {
                        now_micros()
                    } else {
                        0
                    };
                    let wants_hash = match &rec.code {
                        Some(c) => !expired(now, created, 5) && *c == form.otp,
                        None => false,
                    };
                    let hashed = if wants_hash {
                        hash_password(form.password.as_str(), default_cost())
                    } else {
                        Err(String::new())
                    };
                    let ghost hv = if wants_hash {
                        res_text_text(hashed)
                    } else {
                        no_hash
                    };
                    let res = check_reset_code(email, form, rec, now, hashed);
                    assert(reset_draw_ok(s0, now as int, hv));
                    assert((res.0@, res.1@) == reset_next(s0, e0, now as int, hv));
                    res
                },
            },
            _ => {
                proof {
                    assert(false);
                }
                (ResetState::Finished, ResetAction::Respond(info_reply(Status::BadRequest, "")))
            },
        },
        ResetState::AwaitPasswordStored => match event {
            ResetEvent::PasswordStored(r) => {
                let res = match r {
                    Ok(_) => (
                        ResetState::Finished,
                        ResetAction::Respond(info_reply(Status::Success, "Password Reset Sucessfull")),
                    ),
                    Err(m) => (
                        ResetState::Finished,
                        ResetAction::Respond(message_reply(Status::BadRequest, m)),
                    ),
                };
                assert((res.0@, res.1@) == reset_next(s0, e0, 0, no_hash));
                res
            },
            _ => {
                proof {
                    assert(false);
                }
                (ResetState::Finished, ResetAction::Respond(info_reply(Status::BadRequest, "")))
            },
        },
        ResetState::Finished => {
            proof {
                assert(false);
            }
            (ResetState::Finished, ResetAction::Respond(info_reply(Status::BadRequest, "")))
        },
    }
}

} // verus!
