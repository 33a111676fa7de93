//! E-mail verification: the code that sign-up mailed is checked against
//! the stored one and must be at most three whole minutes old.

use crate::expiry::{expired, is_expired};
use crate::external::now_micros;
use crate::models::{Email, VerifyEmail};
use crate::reply::{info, info_reply, message_reply, opt_text, res_text, Reply, ReplyView, Status};
use vstd::prelude::*;
use vstd::string::*;

verus! {

/// A stored code and the time it was made (microseconds since the Unix
/// epoch).
pub struct CodeRecord {
    pub code: Option<String>,
    pub created_at: Option<i64>,
}

pub struct CodeRecordView {
    pub code: Option<Seq<char>>,
    pub created_at: Option<int>,
}

impl View for CodeRecord {
    type V = CodeRecordView;

    open spec fn view(&self) -> CodeRecordView {
        CodeRecordView {
            code: opt_text(self.code),
            created_at: match self.created_at {
                Some(t) => Some(t as int),
                None => None,
            },
        }
    }
}

/// What marking a student verified writes: the `verified` flag and the
/// stored code, for the student with the address.
pub struct VerifiedMark {
    pub email: String,
    pub verified: bool,
    pub code: String,
}

pub struct VerifiedMarkView {
    pub email: Seq<char>,
    pub verified: bool,
    pub code: Seq<char>,
}

impl View for VerifiedMark {
    type V = VerifiedMarkView;

    open spec fn view(&self) -> VerifiedMarkView {
        VerifiedMarkView { email: self.email@, verified: self.verified, code: self.code@ }
    }
}

/// The mark of a verified address: the flag set, the code replaced by
/// `nil`, so that it cannot be used again.
pub open spec fn verified_mark(email: Seq<char>) -> VerifiedMarkView {
    VerifiedMarkView { email, verified: true, code: "nil"@ }
}

/// The mark of a verified address.
pub fn make_verified_mark(email: String) -> (m: VerifiedMark)
    ensures
        m@ == verified_mark(email@),
{
    VerifiedMark { email, verified: true, code: String::from_str("nil") }
}

pub enum VerifyState {
    Idle,
    /// Waiting for the stored code of this address; the code given.
    AwaitRecord(String, String),
    AwaitUpdate,
    Finished,
}

pub enum VerifyStateView {
    Idle,
    AwaitRecord(Seq<char>, Seq<char>),
    AwaitUpdate,
    Finished,
}

impl View for VerifyState {
    type V = VerifyStateView;

    open spec fn view(&self) -> VerifyStateView {
        match self {
            VerifyState::Idle => VerifyStateView::Idle,
            VerifyState::AwaitRecord(e, o) => VerifyStateView::AwaitRecord(e@, o@),
            VerifyState::AwaitUpdate => VerifyStateView::AwaitUpdate,
            VerifyState::Finished => VerifyStateView::Finished,
        }
    }
}

pub enum VerifyEvent {
    /// The request: the address from its query and the form.
    Submitted(Email, VerifyEmail),
    /// The stored code of the address, if a student has it.
    RecordFetched(Result<Option<CodeRecord>, String>),
    /// The student was marked verified.
    Updated(Result<(), String>),
}

pub enum VerifyEventView {
    Submitted(Seq<char>, Seq<char>),
    RecordFetched(Result<Option<CodeRecordView>, Seq<char>>),
    Updated(Result<(), Seq<char>>),
}

impl View for VerifyEvent {
    type V = VerifyEventView;

    open spec fn view(&self) -> VerifyEventView {
        match self {
            VerifyEvent::Submitted(m, f) => VerifyEventView::Submitted(m.email@, f.otp@),
            VerifyEvent::RecordFetched(r) => VerifyEventView::RecordFetched(
                match r {
                    Ok(Some(rec)) => Ok(Some(rec@)),
                    Ok(None) => Ok(None),
                    Err(m) => Err(m@),
                },
            ),
            VerifyEvent::Updated(r) => VerifyEventView::Updated(res_text(*r)),
        }
    }
}

pub enum VerifyAction {
    /// Fetch the stored code of this address.
    FetchCode(String),
    /// Write the mark: the student is verified and its code replaced.
    MarkVerified(VerifiedMark),
    Respond(Reply),
}

pub enum VerifyActionView {
    FetchCode(Seq<char>),
    MarkVerified(VerifiedMarkView),
    Respond(ReplyView),
}

impl View for VerifyAction {
    type V = VerifyActionView;

    open spec fn view(&self) -> VerifyActionView {
        match self {
            VerifyAction::FetchCode(e) => VerifyActionView::FetchCode(e@),
            VerifyAction::MarkVerified(e) => VerifyActionView::MarkVerified(e@),
            VerifyAction::Respond(r) => VerifyActionView::Respond(r@),
        }
    }
}

/// The events that each state waits for. A found student must have a
/// stored code: the check reads it unconditionally.
pub open spec fn verify_accepts(s: VerifyStateView, e: VerifyEventView) -> bool {
    match (s, e) {
        (VerifyStateView::Idle, VerifyEventView::Submitted(_, _)) => true,
        (VerifyStateView::AwaitRecord(_, _), VerifyEventView::RecordFetched(r)) => (r matches Ok(
            Some(rec),
        ) ==> rec.code is Some),
        (VerifyStateView::AwaitUpdate, VerifyEventView::Updated(_)) => true,
        _ => false,
    }
}

pub open spec fn verify_finish(r: ReplyView) -> (VerifyStateView, VerifyActionView) {
    (VerifyStateView::Finished, VerifyActionView::Respond(r))
}

/// The decision once the stored code is known, at time `now`.
pub open spec fn verify_code(
    email: Seq<char>,
    otp: Seq<char>,
    rec: CodeRecordView,
    now: int,
) -> (VerifyStateView, VerifyActionView) {
    if rec.code != Some(otp) {
        verify_finish(info(Status::BadRequest, "Invalid OTP"@))
    } else if rec.created_at matches Some(c) && is_expired(now, c, 3) {
        verify_finish(info(Status::BadRequest, "OTP has expired"@))
    } else {
        (VerifyStateView::AwaitUpdate, VerifyActionView::MarkVerified(verified_mark(email)))
    }
}

/// The next state and action of e-mail verification, given the clock.
pub open spec fn verify_next(s: VerifyStateView, e: VerifyEventView, now: int) -> (
    VerifyStateView,
    VerifyActionView,
) {
    match (s, e) {
        (VerifyStateView::Idle, VerifyEventView::Submitted(email, otp)) => (
            VerifyStateView::AwaitRecord(email, otp),
            VerifyActionView::FetchCode(email),
        ),
        (VerifyStateView::AwaitRecord(email, otp), VerifyEventView::RecordFetched(r)) => match r {
            Err(m) => verify_finish(info(Status::InternalServerError, m)),
            Ok(None) => verify_finish(info(Status::NotFound, "Student not found"@)),
            Ok(Some(rec)) => verify_code(email, otp, rec, now),
        },
        (VerifyStateView::AwaitUpdate, VerifyEventView::Updated(r)) => match r {
            Ok(_) => verify_finish(info(Status::Success, "Email verified, you can now login"@)),
            Err(m) => verify_finish(info(Status::InternalServerError, m)),
        },
        _ => arbitrary(),
    }
}

/// The decision once the stored code is known, at time `now`.
pub fn check_email_code(email: String, otp: String, rec: CodeRecord, now: i64) -> (res: (
    VerifyState,
    VerifyAction,
))
    requires
        rec.code is Some,
    ensures
        (res.0@, res.1@) == verify_code(email@, otp@, rec@, now as int),
{
    let stored = rec.code.unwrap();
    if !(stored == otp) {
        return (VerifyState::Finished, VerifyAction::Respond(info_reply(Status::BadRequest, "Invalid OTP")));
    }
    match rec.created_at {
        Some(created) => {
            if expired(now, created, 3) {
                return (
                    VerifyState::Finished,
                    VerifyAction::Respond(info_reply(Status::BadRequest, "OTP has expired")),
                );
            }
        },
        None => {},
    }
    (VerifyState::AwaitUpdate, VerifyAction::MarkVerified(make_verified_mark(email)))
}

/// One step of e-mail verification: from the state and the event that
/// arrived, the next state and what to do. When the code matches and has
/// a time, it reads the clock itself; the result is `verify_next` for
/// some reading.
pub fn verify_email(state: VerifyState, event: VerifyEvent) -> (res: (VerifyState, VerifyAction))
    requires
        verify_accepts(state@, event@),
    ensures
        exists|now: int|
            i64::MIN <= now <= i64::MAX && (res.0@, res.1@) == #[trigger] verify_next(
                state@,
                event@,
                now,
            ),
{
    let ghost s0 = state@;
    let ghost e0 = event@;
    match state {
        VerifyState::Idle => match event {
            VerifyEvent::Submitted(m, f) => {
                let email = m.email.clone();
                let res = (VerifyState::AwaitRecord(m.email, f.otp), VerifyAction::FetchCode(email));
                assert((res.0@, res.1@) == verify_next(s0, e0, 0));
                res
            },
            _ => {
                proof {
                    assert(false);
                }
                (VerifyState::Finished, VerifyAction::Respond(info_reply(Status::BadRequest, "")))
            },
        },
        VerifyState::AwaitRecord(email, otp) => match event {
            VerifyEvent::RecordFetched(r) => match r {
                Err(m) => {
                    let res = (
                        VerifyState::Finished,
                        VerifyAction::Respond(message_reply(Status::InternalServerError, m)),
                    );
                    assert((res.0@, res.1@) == verify_next(s0, e0, 0));
                    res
                },
                Ok(None) => {
                    let res = (
                        VerifyState::Finished,
                        VerifyAction::Respond(info_reply(Status::NotFound, "Student not found")),
                    );
                    assert((res.0@, res.1@) == verify_next(s0, e0, 0));
                    res
                },
                Ok(Some(rec)) => {
                    let now = if rec.created_at.is_some() {
                        now_micros()
                    } else {
                        0
                    };
                    let res = check_email_code(email, otp, rec, now);
                    assert((res.0@, res.1@) == verify_next(s0, e0, now as int));
                    res
                },
            },
            _ => {
                proof {
                    assert(false);
                }
                (VerifyState::Finished, VerifyAction::Respond(info_reply(Status::BadRequest, "")))
            },
        },
        VerifyState::AwaitUpdate => match event {
            VerifyEvent::Updated(r) => {
                let res = match r {
                    Ok(_) => (
                        VerifyState::Finished,
                        VerifyAction::Respond(
                            info_reply(Status::Success, "Email verified, you can now login"),
                        ),
                    ),
                    Err(m) => (
                        VerifyState::Finished,
                        VerifyAction::Respond(message_reply(Status::InternalServerError, m)),
                    ),
                };
                assert((res.0@, res.1@) == verify_next(s0, e0, 0));
                res
            },
            _ => {
                proof {
                    assert(false);
                }
                (VerifyState::Finished, VerifyAction::Respond(info_reply(Status::BadRequest, "")))
            },
        },
        VerifyState::Finished => {
            proof {
                assert(false);
            }
            (VerifyState::Finished, VerifyAction::Respond(info_reply(Status::BadRequest, "")))
        },
    }
}

} // verus!
