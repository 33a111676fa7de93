//! What holds across the steps and the machines.

use crate::code::decimal;
use crate::email_verification::{
    verified_mark, verify_accepts, verify_finish, verify_next, CodeRecordView, VerifyActionView, VerifyEventView, VerifyStateView,
};
use crate::expiry::{elapsed_minutes, is_expired, trunc_div};
use crate::external::{bcrypt_verify_outcome, is_bcrypt_hash, verdict};
use crate::home::{
    course_pdf, home_accepts, home_next, HomeActionView, HomeEventView, HomeStateView,
    TokenCourseView,
};
use crate::login::{
    login_accepts, login_next, session_reply, LoginActionView, LoginEventView, LoginStateView,
};
use crate::models::{ForgottenPasswordView, LoginView, SignupView};
use crate::password_reset::{
    code_request_accepts, code_request_next, reset_accepts, reset_draw_ok, reset_mail, reset_next,
    CodeRequestActionView, CodeRequestEventView, CodeRequestStateView, ResetActionView,
    ResetCodeView, ResetEventView, ResetStateView,
};
use crate::reply::{info, session_cookie, BodyView, ReplyView, Status};
use crate::signup::{
    new_student, signup_accepts, signup_draw_ok, signup_mail, signup_next, SignupActionView,
    SignupEventView, SignupStateView,
};
use vstd::prelude::*;

verus! {

/// Every code that is mailed has six digits.
pub proof fn mailed_codes_have_six_digits(code: int)
    requires
        100000 <= code < 999999,
    ensures
        decimal(code as nat).len() == 6,
{
    let n0 = code as nat;
    let n1 = n0 / 10;
    let n2 = n1 / 10;
    let n3 = n2 / 10;
    let n4 = n3 / 10;
    let n5 = n4 / 10;
    assert(10000 <= n1 < 100000);
    assert(1000 <= n2 < 10000);
    assert(100 <= n3 < 1000);
    assert(10 <= n4 < 100);
    assert(1 <= n5 < 10);
    assert(decimal(n5).len() == 1);
    assert(decimal(n4).len() == 2);
    assert(decimal(n3).len() == 3);
    assert(decimal(n2).len() == 4);
    assert(decimal(n1).len() == 5);
    assert(decimal(n0).len() == 6);
}

/// A code that has expired stays expired: expiry is monotone in the
/// time of the check.
pub proof fn expiry_is_monotone(now1: int, now2: int, created: int, limit: int)
    requires
        now1 <= now2,
        0 <= limit,
        is_expired(now1, created, limit),
    ensures
        is_expired(now2, created, limit),
{
    let a = now1 - created;
    let b = now2 - created;
    assert(a > 0) by {
        if a < 0 {
            assert((-a) / 60_000_000 >= 0) by (nonlinear_arith)
                requires
                    -a > 0,
            ;
        }
    }
    vstd::arithmetic::div_mod::lemma_div_is_ordered(a, b, 60_000_000);
    assert(trunc_div(b, 60_000_000) == b / 60_000_000);
}

/// The code that sign-up stores is the one it mails, and e-mail
/// verification accepts it, for the address it was stored with, as long
/// as at most three whole minutes have passed.
pub proof fn signup_code_is_accepted(
    f: SignupView,
    hash: Seq<char>,
    code: int,
    created: int,
    now: int,
    stored_address: Seq<char>,
)
    requires
        100000 <= code < 999999,
        elapsed_minutes(now, created) <= 3,
    ensures
        ({
            let (s1, a1) = signup_next(
                SignupStateView::AwaitPhoneCheck(f),
                SignupEventView::PhoneChecked(Ok(false)),
                Ok(hash),
                code,
                created,
            );
            let row = new_student(f, hash, code, created);
            let (s2, a2) = signup_next(
                s1,
                SignupEventView::Inserted(Ok(stored_address)),
                Ok(hash),
                code,
                created,
            );
            &&& a1 == SignupActionView::Insert(row)
            &&& a2 == SignupActionView::SendMail(signup_mail(stored_address, code))
            &&& signup_mail(stored_address, code).body == "Your OTP is: "@ + row.email_code
            &&& verify_next(
                VerifyStateView::AwaitRecord(f.email, row.email_code),
                VerifyEventView::RecordFetched(
                    Ok(Some(CodeRecordView { code: Some(row.email_code), created_at: Some(created) })),
                ),
                now,
            ) == (VerifyStateView::AwaitUpdate, VerifyActionView::MarkVerified(verified_mark(f.email)))
        }),
{
}

/// The password hash that sign-up stores lets the same password log in:
/// with the stored address and hash, login proceeds to store a session
/// token for that address.
pub proof fn signup_password_logs_in(
    f: SignupView,
    hash: Seq<char>,
    code: int,
    created: int,
    token: Seq<char>,
)
    requires
        signup_draw_ok(SignupStateView::AwaitPhoneCheck(f), Ok(hash), code, created),
    ensures
        ({
            let row = new_student(f, hash, code, created);
            login_next(
                LoginStateView::AwaitAccount(LoginView { email: f.email, password: f.password }),
                LoginEventView::AccountFetched(
                    Ok(Some(LoginView { email: row.email, password: row.password_hash })),
                ),
                token,
            ) == (LoginStateView::AwaitTokenStored(token), LoginActionView::StoreToken(
                token,
                f.email,
            ))
        }),
{
}

/// The reset code that a code request stores is the one it mails, and a
/// password reset with it, within five whole minutes, stores the new
/// password's hash for that address.
pub proof fn reset_code_is_accepted(
    email: Seq<char>,
    code: int,
    created: int,
    now: int,
    new_password: Seq<char>,
    hash: Seq<char>,
)
    requires
        100000 <= code < 999999,
        elapsed_minutes(now, created) <= 5,
    ensures
        ({
            let (s1, a1) = code_request_next(
                CodeRequestStateView::AwaitAccount(email),
                CodeRequestEventView::AccountFound(Ok(())),
                code,
                created,
            );
            let (s2, a2) = code_request_next(
                s1,
                CodeRequestEventView::CodeStored(Ok(())),
                code,
                created,
            );
            let mailed = reset_mail(email, code).body;
            &&& a1 == CodeRequestActionView::StoreResetCode(
                ResetCodeView { email, code: mailed, created_at: created },
            )
            &&& a2 == CodeRequestActionView::SendMail(reset_mail(email, code))
            &&& reset_next(
                ResetStateView::AwaitRecord(
                    email,
                    ForgottenPasswordView { otp: mailed, password: new_password },
                ),
                ResetEventView::RecordFetched(
                    Ok(CodeRecordView { code: Some(mailed), created_at: Some(created) }),
                ),
                now,
                Ok(hash),
            ) == (ResetStateView::AwaitPasswordStored, ResetActionView::StorePassword(email, hash))
        }),
{
}

/// The hash that a password reset stores lets the new password log in.
pub proof fn reset_password_logs_in(
    email: Seq<char>,
    form: ForgottenPasswordView,
    now: int,
    hash: Seq<char>,
    token: Seq<char>,
)
    requires
        reset_draw_ok(ResetStateView::AwaitRecord(email, form), now, Ok(hash)),
    ensures
        login_next(
            LoginStateView::AwaitAccount(LoginView { email, password: form.password }),
            LoginEventView::AccountFetched(Ok(Some(LoginView { email, password: hash }))),
            token,
        ) == (LoginStateView::AwaitTokenStored(token), LoginActionView::StoreToken(token, email)),
{
}

/// Login proceeds to store a session token only for a verified student's
/// account whose address is the one given and whose hash accepts the
/// password given; the token is stored for that address.
pub proof fn login_token_needs_matching_password(
    s: LoginStateView,
    e: LoginEventView,
    token: Seq<char>,
)
    requires
        login_accepts(s, e),
    ensures
        login_next(s, e, token).1 is StoreToken ==> exists|f: LoginView, account: LoginView|
            {
                &&& s == LoginStateView::AwaitAccount(f)
                &&& e == LoginEventView::AccountFetched(Ok(Some(account)))
                &&& account.email == f.email
                &&& bcrypt_verify_outcome(f.password, account.password) == verdict(true)
                &&& login_next(s, e, token).1 == LoginActionView::StoreToken(token, f.email)
            },
{
    if login_next(s, e, token).1 is StoreToken {
        match (s, e) {
            (LoginStateView::AwaitAccount(f), LoginEventView::AccountFetched(Ok(Some(account)))) => {
                assert(s == LoginStateView::AwaitAccount(f));
                assert(e == LoginEventView::AccountFetched(Ok(Some(account))));
            },
            _ => {},
        }
    }
}

/// A session cookie is set only by the reply that follows the storing of
/// the token, and it carries that token.
pub proof fn session_is_the_stored_token(
    s: LoginStateView,
    e: LoginEventView,
    token: Seq<char>,
)
    requires
        login_accepts(s, e),
    ensures
        login_next(s, e, token).1 matches LoginActionView::Respond(r) ==> (r.session is Some
            ==> exists|t: Seq<char>|
            s == LoginStateView::AwaitTokenStored(t) && e == LoginEventView::TokenStored(Ok(()))
                && r.session == Some(session_cookie(t))),
{
    if let LoginActionView::Respond(r) = login_next(s, e, token).1 {
        if r.session is Some {
            match (s, e) {
                (LoginStateView::AwaitTokenStored(t), LoginEventView::TokenStored(Ok(u))) => {
                    assert(u == ());
                    assert(s == LoginStateView::AwaitTokenStored(t));
                    assert(e == LoginEventView::TokenStored(Ok(())));
                    assert(r.session == Some(session_cookie(t)));
                },
                _ => {},
            }
        }
    }
}

/// The cookie that login sets opens the course page of the student who
/// holds that token and whose course is known.
pub proof fn session_opens_course_page(token: Seq<char>, course: Seq<char>)
    requires
        course_pdf(course) is Some,
    ensures
        session_reply(token).session == Some(session_cookie(token)),
        home_next(HomeStateView::Idle, HomeEventView::Requested(Some(token))) == (
            HomeStateView::AwaitStudent(token),
            HomeActionView::FetchStudentByToken(token),
        ),
        home_next(
            HomeStateView::AwaitStudent(token),
            HomeEventView::StudentFetched(
                Ok(TokenCourseView { token_id: Some(token), course: Some(course) }),
            ),
        ) == (HomeStateView::Finished, HomeActionView::Respond(
            ReplyView {
                status: Status::Success,
                body: BodyView::Path("./course/"@ + course_pdf(course).unwrap()),
                session: None,
            },
        )),
{
}

/// The course page answers with a path only to a cookie that equals the
/// stored token of a student with a known course.
pub proof fn course_page_needs_the_token(s: HomeStateView, e: HomeEventView)
    requires
        home_accepts(s, e),
    ensures
        home_next(s, e).1 matches HomeActionView::Respond(r) ==> (r.status == Status::Success
            ==> exists|cookie: Seq<char>, row: TokenCourseView|
            {
                &&& s == HomeStateView::AwaitStudent(cookie)
                &&& e == HomeEventView::StudentFetched(Ok(row))
                &&& row.token_id == Some(cookie)
                &&& row.course is Some
                &&& course_pdf(row.course.unwrap()) is Some
            }),
{
    if let HomeActionView::Respond(r) = home_next(s, e).1 {
        if r.status == Status::Success {
            match (s, e) {
                (HomeStateView::AwaitStudent(cookie), HomeEventView::StudentFetched(Ok(row))) => {
                    assert(s == HomeStateView::AwaitStudent(cookie));
                    assert(e == HomeEventView::StudentFetched(Ok(row)));
                },
                _ => {},
            }
        }
    }
}

/// E-mail verification marks a student verified only when the code given
/// is the stored one and, where the stored code has a time, at most three
/// whole minutes have passed; it marks the address that was asked about.
pub proof fn verification_needs_fresh_matching_code(
    s: VerifyStateView,
    e: VerifyEventView,
    now: int,
)
    requires
        verify_accepts(s, e),
    ensures
        verify_next(s, e, now).1 is MarkVerified ==> exists|email: Seq<char>, otp: Seq<char>, rec: CodeRecordView|
            {
                &&& s == VerifyStateView::AwaitRecord(email, otp)
                &&& e == VerifyEventView::RecordFetched(Ok(Some(rec)))
                &&& rec.code == Some(otp)
                &&& (rec.created_at matches Some(c) ==> !is_expired(now, c, 3))
                &&& verify_next(s, e, now).1 == VerifyActionView::MarkVerified(verified_mark(email))
            },
{
    if verify_next(s, e, now).1 is MarkVerified {
        match (s, e) {
            (
                VerifyStateView::AwaitRecord(email, otp),
                VerifyEventView::RecordFetched(Ok(Some(rec))),
            ) => {
                assert(s == VerifyStateView::AwaitRecord(email, otp));
                assert(e == VerifyEventView::RecordFetched(Ok(Some(rec))));
            },
            _ => {},
        }
    }
}

/// A password reset stores a new password only when the code given is
/// the stored one, at most five whole minutes old, and the stored hash is
/// one that accepts the new password.
pub proof fn reset_needs_fresh_matching_code(
    s: ResetStateView,
    e: ResetEventView,
    now: int,
    hashed: Result<Seq<char>, Seq<char>>,
)
    requires
        reset_accepts(s, e),
        reset_draw_ok(s, now, hashed),
    ensures
        reset_next(s, e, now, hashed).1 matches ResetActionView::StorePassword(addr, hash) ==> exists|
            email: Seq<char>,
            f: ForgottenPasswordView,
            rec: CodeRecordView,
        |
            {
                &&& s == ResetStateView::AwaitRecord(email, f)
                &&& e == ResetEventView::RecordFetched(Ok(rec))
                &&& rec.code == Some(f.otp)
                &&& !is_expired(now, rec.created_at.unwrap(), 5)
                &&& addr == email
                &&& is_bcrypt_hash(hash, 12)
                &&& bcrypt_verify_outcome(f.password, hash) == verdict(true)
            },
{
    if let ResetActionView::StorePassword(addr, hash) = reset_next(s, e, now, hashed).1 {
        match (s, e) {
            (ResetStateView::AwaitRecord(email, f), ResetEventView::RecordFetched(Ok(rec))) => {
                assert(s == ResetStateView::AwaitRecord(email, f));
                assert(e == ResetEventView::RecordFetched(Ok(rec)));
            },
            _ => {},
        }
    }
}

/// Sign-up replies exactly when it finishes.
pub proof fn signup_replies_when_finished(
    s: SignupStateView,
    e: SignupEventView,
    hashed: Result<Seq<char>, Seq<char>>,
    code: int,
    now: int,
)
    requires
        signup_accepts(s, e),
    ensures
        (signup_next(s, e, hashed, code, now).1 is Respond) == (signup_next(
            s,
            e,
            hashed,
            code,
            now,
        ).0 is Finished),
{
}

/// E-mail verification replies exactly when it finishes.
pub proof fn verification_replies_when_finished(s: VerifyStateView, e: VerifyEventView, now: int)
    requires
        verify_accepts(s, e),
    ensures
        (verify_next(s, e, now).1 is Respond) == (verify_next(s, e, now).0 is Finished),
{
}

/// Login replies exactly when it finishes.
pub proof fn login_replies_when_finished(
    s: LoginStateView,
    e: LoginEventView,
    token: Seq<char>,
)
    requires
        login_accepts(s, e),
    ensures
        (login_next(s, e, token).1 is Respond) == (login_next(s, e, token).0 is Finished),
{
}

/// The course page replies exactly when it finishes.
pub proof fn course_page_replies_when_finished(s: HomeStateView, e: HomeEventView)
    requires
        home_accepts(s, e),
    ensures
        (home_next(s, e).1 is Respond) == (home_next(s, e).0 is Finished),
{
}

/// A code request replies exactly when it finishes.
pub proof fn code_request_replies_when_finished(
    s: CodeRequestStateView,
    e: CodeRequestEventView,
    code: int,
    now: int,
)
    requires
        code_request_accepts(s, e),
    ensures
        (code_request_next(s, e, code, now).1 is Respond) == (code_request_next(s, e, code, now).0 is Finished),
{
}

/// A password reset replies exactly when it finishes.
pub proof fn reset_replies_when_finished(
    s: ResetStateView,
    e: ResetEventView,
    now: int,
    hashed: Result<Seq<char>, Seq<char>>,
)
    requires
        reset_accepts(s, e),
    ensures
        (reset_next(s, e, now, hashed).1 is Respond) == (reset_next(s, e, now, hashed).0 is Finished),
{
}

/// The password sign-up stores is a cost-12 bcrypt string that accepts
/// the password given; it is not the password itself unless the password
/// given already has that form.
pub proof fn signup_stores_bcrypt_hash(
    f: SignupView,
    hashed: Result<Seq<char>, Seq<char>>,
    code: int,
    now: int,
)
    requires
        signup_draw_ok(SignupStateView::AwaitPhoneCheck(f), hashed, code, now),
    ensures
        signup_next(
            SignupStateView::AwaitPhoneCheck(f),
            SignupEventView::PhoneChecked(Ok(false)),
            hashed,
            code,
            now,
        ).1 matches SignupActionView::Insert(row) ==> {
            &&& is_bcrypt_hash(row.password_hash, 12)
            &&& bcrypt_verify_outcome(f.password, row.password_hash) == verdict(true)
            &&& (!is_bcrypt_hash(f.password, 12) ==> row.password_hash != f.password)
        },
{
}

/// The password a reset stores is a cost-12 bcrypt string that accepts
/// the new password; it is not the new password itself unless that
/// already has that form.
pub proof fn reset_stores_bcrypt_hash(
    s: ResetStateView,
    e: ResetEventView,
    now: int,
    hashed: Result<Seq<char>, Seq<char>>,
)
    requires
        reset_accepts(s, e),
        reset_draw_ok(s, now, hashed),
    ensures
        reset_next(s, e, now, hashed).1 matches ResetActionView::StorePassword(addr, hash) ==> exists|
            email: Seq<char>,
            f: ForgottenPasswordView,
        |
            {
                &&& s == ResetStateView::AwaitRecord(email, f)
                &&& is_bcrypt_hash(hash, 12)
                &&& bcrypt_verify_outcome(f.password, hash) == verdict(true)
                &&& (!is_bcrypt_hash(f.password, 12) ==> hash != f.password)
            },
{
    if let ResetActionView::StorePassword(addr, hash) = reset_next(s, e, now, hashed).1 {
        if let ResetStateView::AwaitRecord(email, f) = s {
            assert(s == ResetStateView::AwaitRecord(email, f));
        }
    }
}

/// A verification code is accepted at most once: marking a student
/// verified replaces the stored code by `nil`, after which every code
/// other than `nil` is refused as invalid, whenever it is given.
pub proof fn verification_code_is_used_once(s: VerifyStateView, e: VerifyEventView, now: int)
    requires
        verify_accepts(s, e),
    ensures
        verify_next(s, e, now).1 matches VerifyActionView::MarkVerified(mark) ==> {
            &&& mark.verified
            &&& forall|otp: Seq<char>, created: Option<int>, later: int|
                otp != "nil"@ ==> #[trigger] verify_next(
                    VerifyStateView::AwaitRecord(mark.email, otp),
                    VerifyEventView::RecordFetched(
                        Ok(Some(CodeRecordView { code: Some(mark.code), created_at: created })),
                    ),
                    later,
                ) == verify_finish(info(Status::BadRequest, "Invalid OTP"@))
        },
{
}

/// The code request with the drawn code `k` in its state.
pub open spec fn with_code(s: CodeRequestStateView, k: int) -> CodeRequestStateView {
    match s {
        CodeRequestStateView::AwaitCodeStored(email, _) => CodeRequestStateView::AwaitCodeStored(email, k),
        _ => s,
    }
}

/// The reset code never reaches a reply: every reply of a code request is
/// the same whatever code was drawn or is held, and whatever the clock
/// read. (The code leaves only in the stored row and the mail.)
pub proof fn reset_code_never_in_reply(
    s: CodeRequestStateView,
    e: CodeRequestEventView,
    code: int,
    now: int,
    other_code: int,
    other_now: int,
)
    requires
        code_request_accepts(s, e),
    ensures
        code_request_next(s, e, code, now).1 matches CodeRequestActionView::Respond(r)
            ==> code_request_next(with_code(s, other_code), e, other_code, other_now).1
            == CodeRequestActionView::Respond(r),
{
}

/// The sign-up form with another password.
pub open spec fn with_password(f: SignupView, password: Seq<char>) -> SignupView {
    SignupView { password, ..f }
}

/// The sign-up state with another password in its form and, where it
/// holds one, another code.
pub open spec fn with_secrets(s: SignupStateView, password: Seq<char>, k: int) -> SignupStateView {
    match s {
        SignupStateView::AwaitEmailCheck(f) => SignupStateView::AwaitEmailCheck(with_password(f, password)),
        SignupStateView::AwaitPhoneCheck(f) => SignupStateView::AwaitPhoneCheck(with_password(f, password)),
        SignupStateView::AwaitInsert(f, _) => SignupStateView::AwaitInsert(with_password(f, password), k),
        SignupStateView::AwaitMail(f) => SignupStateView::AwaitMail(with_password(f, password)),
        _ => s,
    }
}

/// The sign-up event with another password in a submitted form.
pub open spec fn with_submitted_password(e: SignupEventView, password: Seq<char>) -> SignupEventView {
    match e {
        SignupEventView::Submitted(f) => SignupEventView::Submitted(with_password(f, password)),
        _ => e,
    }
}

/// Neither the code nor the password reaches a sign-up reply: every reply
/// is the same whatever code was drawn or is held, whatever the clock
/// read, and whatever password the form holds. (The code leaves only in
/// the stored row and the mail; the password only hashed, in the row.)
pub proof fn signup_secrets_never_in_reply(
    s: SignupStateView,
    e: SignupEventView,
    hashed: Result<Seq<char>, Seq<char>>,
    code: int,
    now: int,
    other_password: Seq<char>,
    other_code: int,
    other_now: int,
)
    requires
        signup_accepts(s, e),
    ensures
        signup_next(s, e, hashed, code, now).1 matches SignupActionView::Respond(r) ==> signup_next(
            with_secrets(s, other_password, other_code),
            with_submitted_password(e, other_password),
            hashed,
            other_code,
            other_now,
        ).1 == SignupActionView::Respond(r),
{
}

} // verus!
