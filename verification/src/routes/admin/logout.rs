//! Logging an administrator out.

use crate::protocol::{
    CommandView, Event, EventView, Flash, FlashView, Level, Location, Reply, ReplyView, Step,
    StepView,
};
use crate::routes::admin::dashboard::to_login;
use crate::utils::{detail_of, e500, fault_detail, plain, spec_e500, spec_plain};
use crate::session_state::TypedSession;
use vstd::prelude::*;

verus! {

/// How far a logout has come.
#[derive(Clone, Copy, Debug, PartialEq, Eq, Structural)]
pub enum Logout {
    /// Waiting for the session's user.
    ReadingSession,
    /// Waiting for the session to be destroyed.
    Destroying,
    /// Over: the client has been answered.
    Finished,
}

/// What a client is told once logged out.
pub open spec fn logged_out_message() -> Seq<char> {
    "You have successfully logged out."@
}

impl Logout {
    /// The step that follows `event`. A session without a user is sent to
    /// the login page and left as it is; an authenticated session is
    /// destroyed as a whole before the client is sent there. A call that
    /// fails is answered with status 500.
    ///
    /// A workflow that is over answers whatever comes next with a fault.
    pub open spec fn spec_advance(self, event: EventView) -> (Logout, StepView) {
        match self {
            Logout::ReadingSession => match event {
                EventView::SessionUser(None) => (Logout::Finished, to_login()),
                EventView::SessionUser(Some(_)) => (
                    Logout::Destroying,
                    StepView::Call(CommandView::DestroySession),
                ),
                _ => (Logout::Finished, StepView::Respond(spec_e500(fault_detail(event)))),
            },
            Logout::Destroying => match event {
                EventView::Done => (
                    Logout::Finished,
                    StepView::Respond(
                        spec_plain(
                            ReplyView::Redirect {
                                to: Location::Login,
                                flash: Some(
                                    FlashView { level: Level::Info, message: logged_out_message() },
                                ),
                            },
                        ),
                    ),
                ),
                _ => (Logout::Finished, StepView::Respond(spec_e500(fault_detail(event)))),
            },
            Logout::Finished => (Logout::Finished, StepView::Respond(spec_e500(fault_detail(event)))),
        }
    }

    /// Takes what came of the last call and says what to do next.
    pub fn advance(self, event: Event) -> (r: (Logout, Step))
        ensures
            (r.0, r.1@) == self.spec_advance(event@),
    {
        match (self, event) {
            (Logout::ReadingSession, Event::SessionUser(None)) => (
                Logout::Finished,
                Step::Respond(plain(Reply::Redirect { to: Location::Login, flash: None })),
            ),
            (Logout::ReadingSession, Event::SessionUser(Some(_))) => (
                Logout::Destroying,
                Step::Call(TypedSession.log_out()),
            ),
            (Logout::Destroying, Event::Done) => (
                Logout::Finished,
                Step::Respond(
                    plain(
                        Reply::Redirect {
                            to: Location::Login,
                            flash: Some(
                                Flash {
                                    level: Level::Info,
                                    message: String::from_str("You have successfully logged out."),
                                },
                            ),
                        },
                    ),
                ),
            ),
            (_, event) => {
                let detail = detail_of(event);
                (Logout::Finished, Step::Respond(e500(detail.as_str())))
            },
        }
    }
}

/// Logs the administrator out: starts by reading the session's user.
pub fn log_out() -> (r: (Logout, Step))
    ensures
        r.0 == Logout::ReadingSession,
        r.1@ == StepView::Call(CommandView::ReadSessionUser),
{
    (Logout::ReadingSession, Step::Call(TypedSession.get_user_id()))
}

} // verus!
