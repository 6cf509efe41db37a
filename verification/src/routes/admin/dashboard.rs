//! The administrator's dashboard.

use crate::protocol::{
    Command, CommandView, Event, EventView, Location, Page, PageView, Reply, ReplyView, Step,
    StepView, UserId,
};
use crate::utils::{detail_of, e500, fault_detail, plain, spec_e500, spec_plain};
use crate::session_state::TypedSession;
use vstd::prelude::*;

verus! {

/// How far the request for the dashboard has come.
#[derive(Clone, Copy, Debug, PartialEq, Eq, Structural)]
pub enum Dashboard {
    /// Waiting for the session's user.
    ReadingSession,
    /// Waiting for the user's name.
    FetchingUsername,
    /// Over: the client has been answered.
    Finished,
}

/// Sends a client that is not logged in to the login page.
pub open spec fn to_login() -> StepView {
    StepView::Respond(spec_plain(ReplyView::Redirect { to: Location::Login, flash: None }))
}

impl Dashboard {
    /// The step that follows `event`. A session without a user is sent to
    /// the login page; the dashboard is shown, with the user's name, only to
    /// the user of an authenticated session. A call that fails is answered
    /// with status 500.
    ///
    /// A workflow that is over answers whatever comes next with a fault.
    pub open spec fn spec_advance(self, event: EventView) -> (Dashboard, StepView) {
        match self {
            Dashboard::ReadingSession => match event {
                EventView::SessionUser(None) => (Dashboard::Finished, to_login()),
                EventView::SessionUser(Some(user_id)) => (
                    Dashboard::FetchingUsername,
                    StepView::Call(CommandView::FetchUsername { user_id }),
                ),
                _ => (Dashboard::Finished, StepView::Respond(spec_e500(fault_detail(event)))),
            },
            Dashboard::FetchingUsername => match event {
                EventView::Username(username) => (
                    Dashboard::Finished,
                    StepView::Respond(
                        spec_plain(ReplyView::Page(PageView::AdminDashboard { username })),
                    ),
                ),
                _ => (Dashboard::Finished, StepView::Respond(spec_e500(fault_detail(event)))),
            },
            Dashboard::Finished => (
                Dashboard::Finished,
                StepView::Respond(spec_e500(fault_detail(event))),
            ),
        }
    }

    /// Takes what came of the last call and says what to do next.
    pub fn advance(self, event: Event) -> (r: (Dashboard, Step))
        ensures
            (r.0, r.1@) == self.spec_advance(event@),
    {
        match (self, event) {
            (Dashboard::ReadingSession, Event::SessionUser(None)) => (
                Dashboard::Finished,
                Step::Respond(plain(Reply::Redirect { to: Location::Login, flash: None })),
            ),
            (Dashboard::ReadingSession, Event::SessionUser(Some(user_id))) => (
                Dashboard::FetchingUsername,
                Step::Call(get_username(user_id)),
            ),
            (Dashboard::FetchingUsername, Event::Username(username)) => (
                Dashboard::Finished,
                Step::Respond(plain(Reply::Page(Page::AdminDashboard { username }))),
            ),
            (_, event) => {
                let detail = detail_of(event);
                (Dashboard::Finished, Step::Respond(e500(detail.as_str())))
            },
        }
    }
}

/// The admin dashboard: starts by reading the session's user.
pub fn admin_dashboard() -> (r: (Dashboard, Step))
    ensures
        r.0 == Dashboard::ReadingSession,
        r.1@ == StepView::Call(CommandView::ReadSessionUser),
{
    (Dashboard::ReadingSession, Step::Call(TypedSession.get_user_id()))
}

/// Get the username of an administrator.
pub fn get_username(user_id: UserId) -> (command: Command)
    ensures
        command@ == (CommandView::FetchUsername { user_id }),
{
    Command::FetchUsername { user_id }
}

} // verus!
