//! Login: a verified student whose password matches the stored bcrypt
//! hash is given a fresh session token, stored with the student and set
//! as the `refresh` cookie.

use crate::external::{bcrypt_verify_outcome, fresh_token, is_uuid_v4_text, verify_password};
use crate::models::{Login, LoginView};
use crate::reply::{
    info, info_reply, make_session_cookie, message_reply, res_text, session_cookie, Body, BodyView,
    Reply, ReplyView, Status,
};
use crate::text::joined;
use vstd::prelude::*;
use vstd::string::*;

verus! {

pub enum LoginState {
    Idle,
    AwaitVerified(Login),
    AwaitAccount(Login),
    /// Waiting for the new token to be stored.
    AwaitTokenStored(String),
    Finished,
}

pub enum LoginStateView {
    Idle,
    AwaitVerified(LoginView),
    AwaitAccount(LoginView),
    AwaitTokenStored(Seq<char>),
    Finished,
}

impl View for LoginState {
    type V = LoginStateView;

    open spec fn view(&self) -> LoginStateView {
        match self {
            LoginState::Idle => LoginStateView::Idle,
            LoginState::AwaitVerified(f) => LoginStateView::AwaitVerified(f@),
            LoginState::AwaitAccount(f) => LoginStateView::AwaitAccount(f@),
            LoginState::AwaitTokenStored(t) => LoginStateView::AwaitTokenStored(t@),
            LoginState::Finished => LoginStateView::Finished,
        }
    }
}

pub enum LoginEvent {
    Submitted(Login),
    /// The `verified` flag of the student with the address.
    VerifiedFetched(Result<Option<bool>, String>),
    /// The stored address and password hash, if found.
    AccountFetched(Result<Option<Login>, String>),
    TokenStored(Result<(), String>),
}

pub enum LoginEventView {
    Submitted(LoginView),
    VerifiedFetched(Result<Option<bool>, Seq<char>>),
    AccountFetched(Result<Option<LoginView>, Seq<char>>),
    TokenStored(Result<(), Seq<char>>),
}

impl View for LoginEvent {
    type V = LoginEventView;

    open spec fn view(&self) -> LoginEventView {
        match self {
            LoginEvent::Submitted(f) => LoginEventView::Submitted(f@),
            LoginEvent::VerifiedFetched(r) => LoginEventView::VerifiedFetched(res_text(*r)),
            LoginEvent::AccountFetched(r) => LoginEventView::AccountFetched(
                match r {
                    Ok(Some(a)) => Ok(Some(a@)),
                    Ok(None) => Ok(None),
                    Err(m) => Err(m@),
                },
            ),
            LoginEvent::TokenStored(r) => LoginEventView::TokenStored(res_text(*r)),
        }
    }
}

pub enum LoginAction {
    /// Fetch the `verified` flag of the student with this address.
    FetchVerified(String),
    /// Fetch the address and password hash of the student with this address.
    FetchAccount(String),
    /// Store the token (first) as the session of the student with the
    /// address (second).
    StoreToken(String, String),
    Respond(Reply),
}

pub enum LoginActionView {
    FetchVerified(Seq<char>),
    FetchAccount(Seq<char>),
    StoreToken(Seq<char>, Seq<char>),
    Respond(ReplyView),
}

impl View for LoginAction {
    type V = LoginActionView;

    open spec fn view(&self) -> LoginActionView {
        match self {
            LoginAction::FetchVerified(e) => LoginActionView::FetchVerified(e@),
            LoginAction::FetchAccount(e) => LoginActionView::FetchAccount(e@),
            LoginAction::StoreToken(t, e) => LoginActionView::StoreToken(t@, e@),
            LoginAction::Respond(r) => LoginActionView::Respond(r@),
        }
    }
}

/// The events that each state waits for. A found student must have a
/// `verified` flag: the check reads it unconditionally.
pub open spec fn login_accepts(s: LoginStateView, e: LoginEventView) -> bool {
    match (s, e) {
        (LoginStateView::Idle, LoginEventView::Submitted(_)) => true,
        (LoginStateView::AwaitVerified(_), LoginEventView::VerifiedFetched(r)) => (r matches Ok(v)
            ==> v is Some),
        (LoginStateView::AwaitAccount(_), LoginEventView::AccountFetched(_)) => true,
        (LoginStateView::AwaitTokenStored(_), LoginEventView::TokenStored(_)) => true,
        _ => false,
    }
}

pub open spec fn login_finish(r: ReplyView) -> (LoginStateView, LoginActionView) {
    (LoginStateView::Finished, LoginActionView::Respond(r))
}

/// The reply that opens a session with this token.
pub open spec fn session_reply(token: Seq<char>) -> ReplyView {
    ReplyView {
        status: Status::Success,
        body: BodyView::Info("Proceed to login"@),
        session: Some(session_cookie(token)),
    }
}

/// The decision once the account is known, given the outcome of checking
/// the password against its hash (`Err` holds the error's text) and the
/// fresh token.
pub open spec fn login_decide(
    f: LoginView,
    account: LoginView,
    outcome: Result<bool, Seq<char>>,
    token: Seq<char>,
) -> (LoginStateView, LoginActionView) {
    if account.email != f.email {
        login_finish(info(Status::NotFound, "Email not registered"@))
    } else {
        match outcome {
            Err(t) => login_finish(info(Status::BadRequest, "Unable to parse password: "@ + t)),
            Ok(false) => login_finish(info(Status::BadRequest, "Password is wrong"@)),
            Ok(true) => (
                LoginStateView::AwaitTokenStored(token),
                LoginActionView::StoreToken(token, f.email),
            ),
        }
    }
}

/// The next state and action of login, given the fresh token.
pub open spec fn login_next(s: LoginStateView, e: LoginEventView, token: Seq<char>) -> (
    LoginStateView,
    LoginActionView,
) {
    match (s, e) {
        (LoginStateView::Idle, LoginEventView::Submitted(f)) => if f.email.len() == 0
            || f.password.len() == 0 {
            login_finish(info(Status::BadRequest, "Please complete the credentials"@))
        } else {
            (LoginStateView::AwaitVerified(f), LoginActionView::FetchVerified(f.email))
        },
        (LoginStateView::AwaitVerified(f), LoginEventView::VerifiedFetched(r)) => match r {
            Err(m) => login_finish(info(Status::BadRequest, m)),
            Ok(v) => if v == Some(true) {
                (LoginStateView::AwaitAccount(f), LoginActionView::FetchAccount(f.email))
            } else {
                login_finish(info(Status::Locked, "Please verify Your email"@))
            },
        },
        (LoginStateView::AwaitAccount(f), LoginEventView::AccountFetched(r)) => match r {
            Err(m) => login_finish(info(Status::BadRequest, m)),
            Ok(None) => login_finish(info(Status::BadRequest, "Unable to get the data"@)),
            Ok(Some(account)) => login_decide(
                f,
                account,
                bcrypt_verify_outcome(f.password, account.password),
                token,
            ),
        },
        (LoginStateView::AwaitTokenStored(t), LoginEventView::TokenStored(r)) => match r {
            Ok(_) => login_finish(session_reply(t)),
            Err(m) => login_finish(info(Status::BadRequest, m)),
        },
        _ => arbitrary(),
    }
}

/// The decision once the account is known, given the outcome of checking
/// the password (`Err` holds the error's text) and the fresh token.
pub fn authenticate(form: Login, account: Login, outcome: Result<bool, String>, token: String) -> (res: (
    LoginState,
    LoginAction,
))
    ensures
        (res.0@, res.1@) == login_decide(form@, account@, res_text_bool(outcome), token@),
{
    if !(account.email == form.email) {
        return (
            LoginState::Finished,
            LoginAction::Respond(info_reply(Status::NotFound, "Email not registered")),
        );
    }
    match outcome {
        Err(t) => (
            LoginState::Finished,
            LoginAction::Respond(
                message_reply(Status::BadRequest, joined("Unable to parse password: ", t.as_str())),
            ),
        ),
        Ok(false) => (
            LoginState::Finished,
            LoginAction::Respond(info_reply(Status::BadRequest, "Password is wrong")),
        ),
        Ok(true) => {
            let t = token.clone();
            (LoginState::AwaitTokenStored(token), LoginAction::StoreToken(t, form.email))
        },
    }
}

pub open spec fn res_text_bool(r: Result<bool, String>) -> Result<bool, Seq<char>> {
    match r {
        Ok(b) => Ok(b),
        Err(m) => Err(m@),
    }
}

/// One step of login: from the state and the event that arrived, the
/// next state and what to do. It checks the password with bcrypt and, on
/// a match, makes the token itself; the result is `login_next` for some
/// token in the form of a version-4 UUID.
pub fn login(state: LoginState, event: LoginEvent) -> (res: (LoginState, LoginAction))
    requires
        login_accepts(state@, event@),
    ensures
        exists|token: Seq<char>|
            is_uuid_v4_text(token) && (res.0@, res.1@) == #[trigger] login_next(
                state@,
                event@,
                token,
            ),
{
    let ghost s0 = state@;
    let ghost e0 = event@;
    let ghost uuid0 = Seq::new(36, |i: int| if i == 8 || i == 13 || i == 18 || i == 23 { '-' } else if i == 14 { '4' } else { '8' });
    assert(is_uuid_v4_text(uuid0));
    match state {
        LoginState::Idle => match event {
            LoginEvent::Submitted(f) => {
                let res = if f.email.as_str().is_empty() || f.password.as_str().is_empty() {
                    (
                        LoginState::Finished,
                        LoginAction::Respond(
                            info_reply(Status::BadRequest, "Please complete the credentials"),
                        ),
                    )
                } else {
                    let email = f.email.clone();
                    (LoginState::AwaitVerified(f), LoginAction::FetchVerified(email))
                };
                assert((res.0@, res.1@) == login_next(s0, e0, uuid0));
                res
            },
            _ => {
                proof {
                    assert(false);
                }
                (LoginState::Finished, LoginAction::Respond(info_reply(Status::BadRequest, "")))
            },
        },
        LoginState::AwaitVerified(f) => match event {
            LoginEvent::VerifiedFetched(r) => {
                let res = match r {
                    Err(m) => (
                        LoginState::Finished,
                        LoginAction::Respond(message_reply(Status::BadRequest, m)),
                    ),
                    Ok(v) => {
                        if v.unwrap() {
                            let email = f.email.clone();
                            (LoginState::AwaitAccount(f), LoginAction::FetchAccount(email))
                        } else {
                            (
                                LoginState::Finished,
                                LoginAction::Respond(
                                    info_reply(Status::Locked, "Please verify Your email"),
                                ),
                            )
                        }
                    },
                };
                assert((res.0@, res.1@) == login_next(s0, e0, uuid0));
                res
            },
            _ => {
                proof {
                    assert(false);
                }
                (LoginState::Finished, LoginAction::Respond(info_reply(Status::BadRequest, "")))
            },
        },
        LoginState::AwaitAccount(f) => match event {
            LoginEvent::AccountFetched(r) => match r {
                Err(m) => {
                    let res = (
                        LoginState::Finished,
                        LoginAction::Respond(message_reply(Status::BadRequest, m)),
                    );
                    assert((res.0@, res.1@) == login_next(s0, e0, uuid0));
                    res
                },
                Ok(None) => {
                    let res = (
                        LoginState::Finished,
                        LoginAction::Respond(info_reply(Status::BadRequest, "Unable to get the data")),
                    );
                    assert((res.0@, res.1@) == login_next(s0, e0, uuid0));
                    res
                },
                Ok(Some(account)) => {
                    if !(account.email == f.email) {
                        let res = authenticate(f, account, Ok(false), String::new());
                        assert((res.0@, res.1@) == login_next(s0, e0, uuid0));
                        return res;
                    }
                    let outcome = verify_password(f.password.as_str(), account.password.as_str());
                    let token = match outcome {
                        Ok(true) => fresh_token(),
                        _ => String::new(),
                    };
                    let ghost tk = if res_text_bool(outcome) == Ok::<bool, Seq<char>>(true) {
                        token@
                    } else {
                        uuid0
                    };
                    let res = authenticate(f, account, outcome, token);
                    assert(is_uuid_v4_text(tk));
                    assert((res.0@, res.1@) == login_next(s0, e0, tk));
                    res
                },
            },
            _ => {
                proof {
                    assert(false);
                }
                (LoginState::Finished, LoginAction::Respond(info_reply(Status::BadRequest, "")))
            },
        },
        LoginState::AwaitTokenStored(t) => match event {
            LoginEvent::TokenStored(r) => {
                let res = match r {
                    Ok(_) => (
                        LoginState::Finished,
                        LoginAction::Respond(
                            Reply {
                                status: Status::Success,
                                body: Body::Info(String::from_str("Proceed to login")),
                                session: Some(make_session_cookie(t)),
                            },
                        ),
                    ),
                    Err(m) => (
                        LoginState::Finished,
                        LoginAction::Respond(message_reply(Status::BadRequest, m)),
                    ),
                };
                assert((res.0@, res.1@) == login_next(s0, e0, uuid0));
                res
            },
            _ => {
                proof {
                    assert(false);
                }
                (LoginState::Finished, LoginAction::Respond(info_reply(Status::BadRequest, "")))
            },
        },
        LoginState::Finished => {
            proof {
                assert(false);
            }
            (LoginState::Finished, LoginAction::Respond(info_reply(Status::BadRequest, "")))
        },
    }
}

} // verus!
