//! The course page: the `refresh` cookie names a student by session
//! token, and the student's course decides which file is served.

use crate::reply::{
    info, info_reply, message_reply, opt_text, Body, BodyView, Reply, ReplyView, Status,
};
use crate::text::{joined, same_text};
use vstd::prelude::*;

verus! {

/// The student row found by session token.
pub struct TokenCourse {
    pub token_id: Option<String>,
    pub course: Option<String>,
}

pub struct TokenCourseView {
    pub token_id: Option<Seq<char>>,
    pub course: Option<Seq<char>>,
}

impl View for TokenCourse {
    type V = TokenCourseView;

    open spec fn view(&self) -> TokenCourseView {
        TokenCourseView { token_id: opt_text(self.token_id), course: opt_text(self.course) }
    }
}

pub enum HomeState {
    Idle,
    /// Waiting for the student whose token is the cookie's value.
    AwaitStudent(String),
    Finished,
}

pub enum HomeStateView {
    Idle,
    AwaitStudent(Seq<char>),
    Finished,
}

impl View for HomeState {
    type V = HomeStateView;

    open spec fn view(&self) -> HomeStateView {
        match self {
            HomeState::Idle => HomeStateView::Idle,
            HomeState::AwaitStudent(c) => HomeStateView::AwaitStudent(c@),
            HomeState::Finished => HomeStateView::Finished,
        }
    }
}

pub enum HomeEvent {
    /// The request arrived, with the value of its `refresh` cookie if any.
    Requested(Option<String>),
    /// The lookup of the student by token returned.
    StudentFetched(Result<TokenCourse, String>),
}

pub enum HomeEventView {
    Requested(Option<Seq<char>>),
    StudentFetched(Result<TokenCourseView, Seq<char>>),
}

impl View for HomeEvent {
    type V = HomeEventView;

    open spec fn view(&self) -> HomeEventView {
        match self {
            HomeEvent::Requested(c) => HomeEventView::Requested(opt_text(*c)),
            HomeEvent::StudentFetched(r) => HomeEventView::StudentFetched(
                match r {
                    Ok(row) => Ok(row@),
                    Err(m) => Err(m@),
                },
            ),
        }
    }
}

pub enum HomeAction {
    /// Look up the student whose `token_id` is this token.
    FetchStudentByToken(String),
    Respond(Reply),
}

pub enum HomeActionView {
    FetchStudentByToken(Seq<char>),
    Respond(ReplyView),
}

impl View for HomeAction {
    type V = HomeActionView;

    open spec fn view(&self) -> HomeActionView {
        match self {
            HomeAction::FetchStudentByToken(t) => HomeActionView::FetchStudentByToken(t@),
            HomeAction::Respond(r) => HomeActionView::Respond(r@),
        }
    }
}

/// The course file of each known course.
pub open spec fn course_pdf(course: Seq<char>) -> Option<Seq<char>> {
    if course == "code/programming"@ {
        Some("codeCourse.pdf"@)
    } else if course == "ui/ux"@ {
        Some("Ui/Ux.pdf"@)
    } else if course == "VideoEdit"@ {
        Some("videoedit.pdf"@)
    } else if course == "digitalMarketing"@ {
        Some("digitalM.pdf"@)
    } else if course == "productMgt"@ {
        Some("productMgt.pdf"@)
    } else if course == "graphics"@ {
        Some("graphics.pdf"@)
    } else {
        None
    }
}

/// The reply to a request with this cookie, once the student row is known.
pub open spec fn home_reply(cookie: Seq<char>, row: TokenCourseView) -> ReplyView {
    match row.token_id {
        None => info(Status::BadRequest, "Missing token"@),
        Some(token) => match row.course {
            None => info(Status::BadRequest, "No course assigned"@),
            Some(course) => if token != cookie {
                info(Status::BadRequest, "Access Denied"@)
            } else {
                match course_pdf(course) {
                    None => info(Status::BadRequest, "Unknown course"@),
                    Some(pdf) => ReplyView {
                        status: Status::Success,
                        body: BodyView::Path("./course/"@ + pdf),
                        session: None,
                    },
                }
            },
        },
    }
}

/// The events that each state waits for.
pub open spec fn home_accepts(s: HomeStateView, e: HomeEventView) -> bool {
    match (s, e) {
        (HomeStateView::Idle, HomeEventView::Requested(_)) => true,
        (HomeStateView::AwaitStudent(_), HomeEventView::StudentFetched(_)) => true,
        _ => false,
    }
}

/// The next state and action of the course page.
pub open spec fn home_next(s: HomeStateView, e: HomeEventView) -> (HomeStateView, HomeActionView) {
    match (s, e) {
        (HomeStateView::Idle, HomeEventView::Requested(cookie)) => match cookie {
            None => (
                HomeStateView::Finished,
                HomeActionView::Respond(
                    info(Status::NonAuthoritativeInformation, "Unable to Parse cookie"@),
                ),
            ),
            Some(c) => (HomeStateView::AwaitStudent(c), HomeActionView::FetchStudentByToken(c)),
        },
        (HomeStateView::AwaitStudent(cookie), HomeEventView::StudentFetched(r)) => (
            HomeStateView::Finished,
            HomeActionView::Respond(
                match r {
                    Ok(row) => home_reply(cookie, row),
                    Err(m) => info(Status::NonAuthoritativeInformation, m),
                },
            ),
        ),
        _ => arbitrary(),
    }
}

/// The file of a known course.
pub fn course_file(course: &String) -> (r: Option<&'static str>)
    ensures
        match r {
            Some(p) => course_pdf(course@) == Some(p@),
            None => course_pdf(course@) is None,
        },
{
    if same_text(course, "code/programming") {
        Some("codeCourse.pdf")
    } else if same_text(course, "ui/ux") {
        Some("Ui/Ux.pdf")
    } else if same_text(course, "VideoEdit") {
        Some("videoedit.pdf")
    } else if same_text(course, "digitalMarketing") {
        Some("digitalM.pdf")
    } else if same_text(course, "productMgt") {
        Some("productMgt.pdf")
    } else if same_text(course, "graphics") {
        Some("graphics.pdf")
    } else {
        None
    }
}

fn student_reply(cookie: &String, row: TokenCourse) -> (r: Reply)
    ensures
        r@ == home_reply(cookie@, row@),
{
    match row.token_id {
        None => info_reply(Status::BadRequest, "Missing token"),
        Some(token) => match row.course {
            None => info_reply(Status::BadRequest, "No course assigned"),
            Some(course) => {
                if !(token == *cookie) {
                    info_reply(Status::BadRequest, "Access Denied")
                } else {
                    match course_file(&course) {
                        None => info_reply(Status::BadRequest, "Unknown course"),
                        Some(pdf) => Reply {
                            status: Status::Success,
                            body: Body::Path(joined("./course/", pdf)),
                            session: None,
                        },
                    }
                }
            },
        },
    }
}

/// One step of the course page: from the state and the event that
/// arrived, the next state and what to do.
pub fn home_page(state: HomeState, event: HomeEvent) -> (res: (HomeState, HomeAction))
    requires
        home_accepts(state@, event@),
    ensures
        (res.0@, res.1@) == home_next(state@, event@),
{
    match state {
        HomeState::Idle => match event {
            HomeEvent::Requested(cookie) => match cookie {
                None => (
                    HomeState::Finished,
                    HomeAction::Respond(
                        info_reply(Status::NonAuthoritativeInformation, "Unable to Parse cookie"),
                    ),
                ),
                Some(c) => {
                    let t = c.clone();
                    (HomeState::AwaitStudent(c), HomeAction::FetchStudentByToken(t))
                },
            },
            HomeEvent::StudentFetched(_) => {
                proof {
                    assert(false);
                }
                (HomeState::Finished, HomeAction::Respond(info_reply(Status::BadRequest, "")))
            },
        },
        HomeState::AwaitStudent(cookie) => match event {
            HomeEvent::StudentFetched(r) => {
                let reply = match r {
                    Ok(row) => student_reply(&cookie, row),
                    Err(m) => message_reply(Status::NonAuthoritativeInformation, m),
                };
                (HomeState::Finished, HomeAction::Respond(reply))
            },
            HomeEvent::Requested(_) => {
                proof {
                    assert(false);
                }
                (HomeState::Finished, HomeAction::Respond(info_reply(Status::BadRequest, "")))
            },
        },
        HomeState::Finished => {
            proof {
                assert(false);
            }
            (HomeState::Finished, HomeAction::Respond(info_reply(Status::BadRequest, "")))
        },
    }
}

} // verus!
