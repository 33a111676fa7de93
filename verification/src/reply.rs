use vstd::prelude::*;
use vstd::string::*;

verus! {

/// HTTP status of a reply.
#[derive(Clone, Copy, PartialEq, Eq, Structural, Debug)]
pub enum Status {
    /// 200
    Success,
    NonAuthoritativeInformation,
    BadRequest,
    NotFound,
    Conflict,
    Locked,
    InternalServerError,
}

/// The JSON object that a reply carries.
pub enum Body {
    /// `{"info": ..}`
    Info(String),
    /// `{"info": .., "reason": ..}`
    InfoWithReason(String, String),
    /// `{"info": .., "email": ..}`
    InfoWithEmail(String, String),
    /// `{"path": ..}`
    Path(String),
}

pub enum BodyView {
    Info(Seq<char>),
    InfoWithReason(Seq<char>, Seq<char>),
    InfoWithEmail(Seq<char>, Seq<char>),
    Path(Seq<char>),
}

impl View for Body {
    type V = BodyView;

    open spec fn view(&self) -> BodyView {
        match self {
            Body::Info(i) => BodyView::Info(i@),
            Body::InfoWithReason(i, r) => BodyView::InfoWithReason(i@, r@),
            Body::InfoWithEmail(i, e) => BodyView::InfoWithEmail(i@, e@),
            Body::Path(p) => BodyView::Path(p@),
        }
    }
}

/// A cookie that a reply sets.
pub struct Cookie {
    pub name: String,
    pub value: String,
    pub path: String,
    pub http_only: bool,
    pub secure: bool,
    /// Lifetime in hours.
    pub max_age_hours: i64,
}

pub struct CookieView {
    pub name: Seq<char>,
    pub value: Seq<char>,
    pub path: Seq<char>,
    pub http_only: bool,
    pub secure: bool,
    pub max_age_hours: int,
}

impl View for Cookie {
    type V = CookieView;

    open spec fn view(&self) -> CookieView {
        CookieView {
            name: self.name@,
            value: self.value@,
            path: self.path@,
            http_only: self.http_only,
            secure: self.secure,
            max_age_hours: self.max_age_hours as int,
        }
    }
}

/// The session cookie: `refresh`, holding the token, for the whole site,
/// HTTP-only and secure, for five hours.
pub open spec fn session_cookie(token: Seq<char>) -> CookieView {
    CookieView {
        name: "refresh"@,
        value: token,
        path: "/"@,
        http_only: true,
        secure: true,
        max_age_hours: 5,
    }
}

/// The session cookie holding this token.
pub fn make_session_cookie(token: String) -> (c: Cookie)
    ensures
        c@ == session_cookie(token@),
{
    Cookie {
        name: String::from_str("refresh"),
        value: token,
        path: String::from_str("/"),
        http_only: true,
        secure: true,
        max_age_hours: 5,
    }
}

/// A reply to a request: its status, its JSON body and, where a session
/// was opened, the cookie that holds it.
pub struct Reply {
    pub status: Status,
    pub body: Body,
    pub session: Option<Cookie>,
}

pub struct ReplyView {
    pub status: Status,
    pub body: BodyView,
    pub session: Option<CookieView>,
}

impl View for Reply {
    type V = ReplyView;

    open spec fn view(&self) -> ReplyView {
        ReplyView {
            status: self.status,
            body: self.body@,
            session: match self.session {
                Some(c) => Some(c@),
                None => None,
            },
        }
    }
}

/// An e-mail to send: recipient, subject and plain-text body.
pub struct Mail {
    pub to: String,
    pub subject: String,
    pub body: String,
}

pub struct MailView {
    pub to: Seq<char>,
    pub subject: Seq<char>,
    pub body: Seq<char>,
}

impl View for Mail {
    type V = MailView;

    open spec fn view(&self) -> MailView {
        MailView { to: self.to@, subject: self.subject@, body: self.body@ }
    }
}

pub open spec fn opt_text(s: Option<String>) -> Option<Seq<char>> {
    match s {
        Some(t) => Some(t@),
        None => None,
    }
}

pub open spec fn res_text<T>(r: Result<T, String>) -> Result<T, Seq<char>> {
    match r {
        Ok(t) => Ok(t),
        Err(m) => Err(m@),
    }
}

pub open spec fn res_text_text(r: Result<String, String>) -> Result<Seq<char>, Seq<char>> {
    match r {
        Ok(t) => Ok(t@),
        Err(m) => Err(m@),
    }
}

/// A reply `{"info": text}` without a session.
pub open spec fn info(status: Status, text: Seq<char>) -> ReplyView {
    ReplyView { status, body: BodyView::Info(text), session: None }
}

/// A reply `{"info": text, "reason": reason}` without a session.
pub open spec fn info_reason(status: Status, text: Seq<char>, reason: Seq<char>) -> ReplyView {
    ReplyView { status, body: BodyView::InfoWithReason(text, reason), session: None }
}

pub fn info_reply(status: Status, text: &str) -> (r: Reply)
    ensures
        r@ == info(status, text@),
{
    Reply { status, body: Body::Info(String::from_str(text)), session: None }
}

pub fn message_reply(status: Status, text: String) -> (r: Reply)
    ensures
        r@ == info(status, text@),
{
    Reply { status, body: Body::Info(text), session: None }
}

pub fn reason_reply(status: Status, text: &str, reason: String) -> (r: Reply)
    ensures
        r@ == info_reason(status, text@, reason@),
{
    Reply { status, body: Body::InfoWithReason(String::from_str(text), reason), session: None }
}

} // verus!
