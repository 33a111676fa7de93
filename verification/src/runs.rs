//! Whole runs of each machine from its first state: what a request with
//! given inputs leads to, stated in terms of those inputs.

use crate::code::decimal;
use crate::email_verification::{
    verify_accepts, verify_next, CodeRecordView, VerifyActionView, VerifyEventView, VerifyStateView,
};
use crate::expiry::elapsed_minutes;
use crate::external::{bcrypt_verify_outcome, verdict};
use crate::login::{login_accepts, login_next, LoginActionView, LoginEventView, LoginStateView};
use crate::models::{ForgottenPasswordView, LoginView, SignupView};
use crate::password_reset::{
    code_request_accepts, code_request_next, reset_accepts, reset_draw_ok, reset_next,
    CodeRequestActionView, CodeRequestEventView, CodeRequestStateView, ResetActionView,
    ResetEventView, ResetStateView,
};
use crate::reply::{BodyView, CookieView, MailView, ReplyView, Status};
use crate::signup::{
    signup_accepts, signup_draw_ok, signup_next, SignupActionView, SignupEventView, SignupStateView,
};
use vstd::prelude::*;

verus! {

/// A sign-up run from its first state. The e-mail lookup asks for the
/// form's address; when it is free the phone lookup asks for the form's
/// phone, and a used phone is refused. When both are free the inserted row
/// holds the form's name, address, phone and course, a hash that the
/// outside calls allow for the form's password (one that accepts it), and
/// the code's text and time; the mail goes to the stored address with the
/// code; and the final reply echoes the form's address.
pub proof fn signup_run(
    f: SignupView,
    hashed: Result<Seq<char>, Seq<char>>,
    code: int,
    now: int,
    stored_address: Seq<char>,
    other: Result<Seq<char>, Seq<char>>,
    other_code: int,
    other_now: int,
)
    requires
        100000 <= code < 999999,
    ensures
        ({
            let (s1, a1) = signup_next(
                SignupStateView::Idle,
                SignupEventView::Submitted(f),
                other,
                other_code,
                other_now,
            );
            let (s2, a2) = signup_next(s1, SignupEventView::EmailChecked(Ok(false)), other, other_code, other_now);
            let used_email = signup_next(s1, SignupEventView::EmailChecked(Ok(true)), other, other_code, other_now);
            let used_phone = signup_next(s2, SignupEventView::PhoneChecked(Ok(true)), other, other_code, other_now);
            let (s3, a3) = signup_next(s2, SignupEventView::PhoneChecked(Ok(false)), hashed, code, now);
            let (s4, a4) = signup_next(
                s3,
                SignupEventView::Inserted(Ok(stored_address)),
                other,
                other_code,
                other_now,
            );
            let (s5, a5) = signup_next(s4, SignupEventView::MailSent(Ok(())), other, other_code, other_now);
            &&& signup_accepts(SignupStateView::Idle, SignupEventView::Submitted(f))
            &&& a1 == SignupActionView::FindEmail(f.email)
            &&& signup_accepts(s1, SignupEventView::EmailChecked(Ok(false)))
            &&& used_email.0 is Finished
            &&& used_email.1 == SignupActionView::Respond(
                ReplyView {
                    status: Status::Conflict,
                    body: BodyView::Info("Email already in use, please login"@),
                    session: None,
                },
            )
            &&& a2 == SignupActionView::FindPhone(f.phone)
            &&& signup_accepts(s2, SignupEventView::PhoneChecked(Ok(false)))
            &&& used_phone.0 is Finished
            &&& used_phone.1 == SignupActionView::Respond(
                ReplyView {
                    status: Status::Conflict,
                    body: BodyView::Info("Phone number already in use, please login"@),
                    session: None,
                },
            )
            &&& (signup_draw_ok(s2, hashed, code, now) && hashed is Ok) ==> {
                &&& a3 matches SignupActionView::Insert(row)
                &&& row.name == f.name
                &&& row.email == f.email
                &&& row.phone == f.phone
                &&& row.course == f.course
                &&& Ok::<Seq<char>, Seq<char>>(row.password_hash) == hashed
                &&& bcrypt_verify_outcome(f.password, row.password_hash) == verdict(true)
                &&& row.email_code == decimal(code as nat)
                &&& row.code_created_at == now
                &&& signup_accepts(s3, SignupEventView::Inserted(Ok(stored_address)))
                &&& a4 == SignupActionView::SendMail(
                    MailView {
                        to: stored_address,
                        subject: "Verify Your Email Address"@,
                        body: "Your OTP is: "@ + row.email_code,
                    },
                )
                &&& signup_accepts(s4, SignupEventView::MailSent(Ok(())))
                &&& s5 is Finished
                &&& a5 == SignupActionView::Respond(
                    ReplyView {
                        status: Status::Success,
                        body: BodyView::InfoWithEmail(
                            "Signup successful. Please verify your email."@,
                            f.email,
                        ),
                        session: None,
                    },
                )
            }
        }),
{
}

/// A login run from its first state, for a verified student whose stored
/// account has the submitted address. When the stored hash accepts the
/// submitted password, the token is stored for the submitted address and
/// the reply opens the session with it; when it refuses it, the reply is
/// "Password is wrong".
pub proof fn login_run(f: LoginView, stored_hash: Seq<char>, token: Seq<char>, other: Seq<char>)
    requires
        f.email.len() > 0,
        f.password.len() > 0,
    ensures
        ({
            let account = LoginView { email: f.email, password: stored_hash };
            let (s1, a1) = login_next(LoginStateView::Idle, LoginEventView::Submitted(f), other);
            let (s2, a2) = login_next(s1, LoginEventView::VerifiedFetched(Ok(Some(true))), other);
            let (s3, a3) = login_next(s2, LoginEventView::AccountFetched(Ok(Some(account))), token);
            let (s4, a4) = login_next(s3, LoginEventView::TokenStored(Ok(())), other);
            &&& login_accepts(LoginStateView::Idle, LoginEventView::Submitted(f))
            &&& a1 == LoginActionView::FetchVerified(f.email)
            &&& login_accepts(s1, LoginEventView::VerifiedFetched(Ok(Some(true))))
            &&& a2 == LoginActionView::FetchAccount(f.email)
            &&& login_accepts(s2, LoginEventView::AccountFetched(Ok(Some(account))))
            &&& (bcrypt_verify_outcome(f.password, stored_hash) == verdict(true)) ==> {
                &&& a3 == LoginActionView::StoreToken(token, f.email)
                &&& login_accepts(s3, LoginEventView::TokenStored(Ok(())))
                &&& s4 is Finished
                &&& a4 == LoginActionView::Respond(
                    ReplyView {
                        status: Status::Success,
                        body: BodyView::Info("Proceed to login"@),
                        session: Some(
                            CookieView {
                                name: "refresh"@,
                                value: token,
                                path: "/"@,
                                http_only: true,
                                secure: true,
                                max_age_hours: 5,
                            },
                        ),
                    },
                )
            }
            &&& (bcrypt_verify_outcome(f.password, stored_hash) == verdict(false)) ==> {
                &&& s3 is Finished
                &&& a3 == LoginActionView::Respond(
                    ReplyView {
                        status: Status::BadRequest,
                        body: BodyView::Info("Password is wrong"@),
                        session: None,
                    },
                )
            }
        }),
{
}

/// A login whose form misses the address or the password is refused
/// before any lookup.
pub proof fn login_run_incomplete(f: LoginView, other: Seq<char>)
    requires
        f.email.len() == 0 || f.password.len() == 0,
    ensures
        login_next(LoginStateView::Idle, LoginEventView::Submitted(f), other) == (
            LoginStateView::Finished,
            LoginActionView::Respond(
                ReplyView {
                    status: Status::BadRequest,
                    body: BodyView::Info("Please complete the credentials"@),
                    session: None,
                },
            ),
        ),
{
}

/// A password-reset run from its first state, with the stored code equal
/// to the submitted one. At most five whole minutes after the code was
/// made, the new password is stored for the submitted address, as a hash
/// that the outside calls allow for the submitted new password (one that
/// accepts it); later, the reply says the code expired and nothing is
/// stored.
pub proof fn reset_run(
    email: Seq<char>,
    f: ForgottenPasswordView,
    created: int,
    now: int,
    hashed: Result<Seq<char>, Seq<char>>,
    other: Result<Seq<char>, Seq<char>>,
    other_now: int,
)
    ensures
        ({
            let rec = CodeRecordView { code: Some(f.otp), created_at: Some(created) };
            let (s1, a1) = reset_next(ResetStateView::Idle, ResetEventView::Submitted(email, f), other_now, other);
            let (s2, a2) = reset_next(s1, ResetEventView::RecordFetched(Ok(rec)), now, hashed);
            let (s3, a3) = reset_next(s2, ResetEventView::PasswordStored(Ok(())), other_now, other);
            &&& reset_accepts(ResetStateView::Idle, ResetEventView::Submitted(email, f))
            &&& a1 == ResetActionView::FetchResetCode(email)
            &&& reset_accepts(s1, ResetEventView::RecordFetched(Ok(rec)))
            &&& (elapsed_minutes(now, created) <= 5 && reset_draw_ok(s1, now, hashed) && hashed is Ok)
                ==> {
                &&& a2 matches ResetActionView::StorePassword(addr, h)
                &&& addr == email
                &&& Ok::<Seq<char>, Seq<char>>(h) == hashed
                &&& bcrypt_verify_outcome(f.password, h) == verdict(true)
                &&& reset_accepts(s2, ResetEventView::PasswordStored(Ok(())))
                &&& s3 is Finished
                &&& a3 == ResetActionView::Respond(
                    ReplyView {
                        status: Status::Success,
                        body: BodyView::Info("Password Reset Sucessfull"@),
                        session: None,
                    },
                )
            }
            &&& elapsed_minutes(now, created) > 5 ==> {
                &&& s2 is Finished
                &&& a2 == ResetActionView::Respond(
                    ReplyView {
                        status: Status::Success,
                        body: BodyView::Info("Otp expired pls request a new one"@),
                        session: None,
                    },
                )
            }
        }),
{
}

/// A reset with a code other than the stored one is refused, whatever the
/// time, and stores nothing.
pub proof fn reset_run_wrong_code(
    email: Seq<char>,
    f: ForgottenPasswordView,
    stored: Seq<char>,
    created: int,
    now: int,
    hashed: Result<Seq<char>, Seq<char>>,
    other: Result<Seq<char>, Seq<char>>,
    other_now: int,
)
    requires
        stored != f.otp,
        elapsed_minutes(now, created) <= 5,
    ensures
        ({
            let rec = CodeRecordView { code: Some(stored), created_at: Some(created) };
            let (s1, a1) = reset_next(ResetStateView::Idle, ResetEventView::Submitted(email, f), other_now, other);
            reset_next(s1, ResetEventView::RecordFetched(Ok(rec)), now, hashed) == (
                ResetStateView::Finished,
                ResetActionView::Respond(
                    ReplyView {
                        status: Status::NonAuthoritativeInformation,
                        body: BodyView::Info("Unable to validate the Otp ,Wrong OTP"@),
                        session: None,
                    },
                ),
            )
        }),
{
}

/// A code-request run from its first state: the lookup asks for the
/// submitted address; the stored code is the drawn code's text, made at
/// the step's time, for that address; the mail carries exactly that text
/// to that address.
pub proof fn code_request_run(email: Seq<char>, code: int, now: int, other_code: int, other_now: int)
    requires
        100000 <= code < 999999,
    ensures
        ({
            let (s1, a1) = code_request_next(
                CodeRequestStateView::Idle,
                CodeRequestEventView::Submitted(email),
                other_code,
                other_now,
            );
            let (s2, a2) = code_request_next(s1, CodeRequestEventView::AccountFound(Ok(())), code, now);
            let (s3, a3) = code_request_next(s2, CodeRequestEventView::CodeStored(Ok(())), other_code, other_now);
            let (s4, a4) = code_request_next(s3, CodeRequestEventView::MailSent(Ok(())), other_code, other_now);
            &&& code_request_accepts(CodeRequestStateView::Idle, CodeRequestEventView::Submitted(email))
            &&& a1 == CodeRequestActionView::FindAccount(email)
            &&& code_request_accepts(s1, CodeRequestEventView::AccountFound(Ok(())))
            &&& a2 matches CodeRequestActionView::StoreResetCode(rc)
            &&& rc.email == email
            &&& rc.code == decimal(code as nat)
            &&& rc.created_at == now
            &&& code_request_accepts(s2, CodeRequestEventView::CodeStored(Ok(())))
            &&& a3 == CodeRequestActionView::SendMail(
                MailView { to: email, subject: "Sending Code for Password"@, body: rc.code },
            )
            &&& code_request_accepts(s3, CodeRequestEventView::MailSent(Ok(())))
            &&& s4 is Finished
            &&& a4 == CodeRequestActionView::Respond(
                ReplyView { status: Status::Success, body: BodyView::Info("Added successfuly"@), session: None },
            )
        }),
{
}

/// An e-mail verification run from its first state: the lookup asks for
/// the submitted address; the submitted code, when it is the stored one
/// and at most three whole minutes old, marks that address verified with
/// the code cleared; any other code is refused as invalid.
pub proof fn verification_run(
    email: Seq<char>,
    otp: Seq<char>,
    stored: Seq<char>,
    created: int,
    now: int,
    other_now: int,
)
    ensures
        ({
            let rec = CodeRecordView { code: Some(stored), created_at: Some(created) };
            let (s1, a1) = verify_next(VerifyStateView::Idle, VerifyEventView::Submitted(email, otp), other_now);
            let (s2, a2) = verify_next(s1, VerifyEventView::RecordFetched(Ok(Some(rec))), now);
            let (s3, a3) = verify_next(s2, VerifyEventView::Updated(Ok(())), other_now);
            &&& verify_accepts(VerifyStateView::Idle, VerifyEventView::Submitted(email, otp))
            &&& a1 == VerifyActionView::FetchCode(email)
            &&& verify_accepts(s1, VerifyEventView::RecordFetched(Ok(Some(rec))))
            &&& (stored == otp && elapsed_minutes(now, created) <= 3) ==> {
                &&& a2 matches VerifyActionView::MarkVerified(m)
                &&& m.email == email
                &&& m.verified
                &&& m.code == "nil"@
                &&& verify_accepts(s2, VerifyEventView::Updated(Ok(())))
                &&& s3 is Finished
                &&& a3 == VerifyActionView::Respond(
                    ReplyView {
                        status: Status::Success,
                        body: BodyView::Info("Email verified, you can now login"@),
                        session: None,
                    },
                )
            }
            &&& (stored == otp && elapsed_minutes(now, created) > 3) ==> a2 == VerifyActionView::Respond(
                ReplyView { status: Status::BadRequest, body: BodyView::Info("OTP has expired"@), session: None },
            )
            &&& stored != otp ==> a2 == VerifyActionView::Respond(
                ReplyView { status: Status::BadRequest, body: BodyView::Info("Invalid OTP"@), session: None },
            )
        }),
{
}

} // verus!
