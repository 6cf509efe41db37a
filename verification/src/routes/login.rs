//! Logging an administrator in.

use crate::authentication::{
    validate_credentials, AuthError, AuthErrorView, AuthStep, AuthStepView, Credentials,
    Validation, ValidationView,
};
use crate::protocol::{
    CommandView, Event, EventView, Flash, FlashView, Level, Location, Page, PageView, Reply,
    ReplyView, Response, ResponseView, Step, StepView, UserId,
};
use crate::session_state::TypedSession;
use crate::utils::{detail_of, fault_detail, plain, spec_plain};
use vstd::prelude::*;

verus! {

/// The login form.
#[derive(Clone, PartialEq, Eq)]
pub struct FormData {
    pub username: String,
    pub password: String,
}

/// Why a login did not succeed. The client is told which of the two it is
/// and no more; the cause goes to the log.
#[derive(Debug, PartialEq, Eq)]
pub enum LoginError {
    /// The credentials were not accepted.
    AuthError(String),
    /// Something failed on the server's side.
    UnexpectedError(String),
}

pub enum LoginErrorView {
    AuthError(Seq<char>),
    UnexpectedError(Seq<char>),
}

impl View for LoginError {
    type V = LoginErrorView;

    open spec fn view(&self) -> LoginErrorView {
        match self {
            LoginError::AuthError(cause) => LoginErrorView::AuthError(cause@),
            LoginError::UnexpectedError(cause) => LoginErrorView::UnexpectedError(cause@),
        }
    }
}

impl LoginErrorView {
    /// What the client is told. It does not depend on the cause.
    pub open spec fn message(self) -> Seq<char> {
        match self {
            LoginErrorView::AuthError(_) => "Authentication failed"@,
            LoginErrorView::UnexpectedError(_) => "Something went wrong"@,
        }
    }

    /// The cause behind the error.
    pub open spec fn cause(self) -> Seq<char> {
        match self {
            LoginErrorView::AuthError(cause) => cause,
            LoginErrorView::UnexpectedError(cause) => cause,
        }
    }

    /// What is logged: the message, and the cause behind it.
    pub open spec fn report(self) -> Seq<char> {
        self.message() + ": "@ + self.cause()
    }

    /// The error that a failed validation becomes; the cause is kept.
    pub open spec fn from_auth(error: AuthErrorView) -> LoginErrorView {
        match error {
            AuthErrorView::InvalidCredentials(cause) => LoginErrorView::AuthError(cause),
            AuthErrorView::UnexpectedError(cause) => LoginErrorView::UnexpectedError(cause),
        }
    }

    /// Redirect to the login page with an error message.
    pub open spec fn login_redirect(self) -> ResponseView {
        ResponseView {
            reply: ReplyView::Redirect {
                to: Location::Login,
                flash: Some(FlashView { level: Level::Error, message: self.message() }),
            },
            report: Some(self.report()),
        }
    }
}

impl LoginError {
    /// What the client is told.
    pub fn message(&self) -> (text: String)
        ensures
            text@ == self@.message(),
    {
        match self {
            LoginError::AuthError(_) => String::from_str("Authentication failed"),
            LoginError::UnexpectedError(_) => String::from_str("Something went wrong"),
        }
    }

    /// What is logged.
    pub fn report(&self) -> (text: String)
        ensures
            text@ == self@.report(),
    {
        let cause = match self {
            LoginError::AuthError(cause) => cause,
            LoginError::UnexpectedError(cause) => cause,
        };
        self.message().concat(": ").concat(cause.as_str())
    }

    /// The error that a failed validation becomes.
    pub fn from_auth(error: AuthError) -> (e: LoginError)
        ensures
            e@ == LoginErrorView::from_auth(error@),
    {
        match error {
            AuthError::InvalidCredentials(cause) => LoginError::AuthError(cause),
            AuthError::UnexpectedError(cause) => LoginError::UnexpectedError(cause),
        }
    }
}

/// Redirect to the login page with an error message.
pub fn login_redirect(e: LoginError) -> (response: Response)
    ensures
        response@ == e@.login_redirect(),
{
    Response {
        reply: Reply::Redirect {
            to: Location::Login,
            flash: Some(Flash { level: Level::Error, message: e.message() }),
        },
        report: Some(e.report()),
    }
}

/// The login form: it is shown to everyone, whatever the session holds.
pub fn login_form() -> (response: Response)
    ensures
        response@ == spec_plain(ReplyView::Page(PageView::Login)),
{
    plain(Reply::Page(Page::Login))
}

/// How far a login has come.
#[derive(PartialEq, Eq)]
pub enum Login {
    /// The credentials are being validated.
    Validating(Validation),
    /// Waiting for the session to get its new id.
    Renewing { user_id: UserId },
    /// Waiting for the user to be recorded in the session.
    Inserting,
    /// Over: the client has been answered.
    Finished,
}

pub enum LoginView {
    Validating(ValidationView),
    Renewing { user_id: UserId },
    Inserting,
    Finished,
}

impl View for Login {
    type V = LoginView;

    open spec fn view(&self) -> LoginView {
        match self {
            Login::Validating(validation) => LoginView::Validating(validation@),
            Login::Renewing { user_id } => LoginView::Renewing { user_id: *user_id },
            Login::Inserting => LoginView::Inserting,
            Login::Finished => LoginView::Finished,
        }
    }
}

/// A login that ends without success.
pub open spec fn refused(error: LoginErrorView) -> (LoginView, StepView) {
    (LoginView::Finished, StepView::Respond(error.login_redirect()))
}

impl LoginView {
    /// The step that follows `event`.
    ///
    /// While the credentials are validated the session is not touched. Once
    /// they are accepted the session gets a new id first, and only the
    /// renewed session has the user recorded in it; then the client is sent
    /// to the dashboard. Credentials that are not accepted, and any call that
    /// fails, send the client back to the login page with a message that says
    /// no more than which of the two happened.
    ///
    /// A workflow that is over answers whatever comes next with a fault.
    pub open spec fn advance(self, event: EventView) -> (LoginView, StepView) {
        match self {
            LoginView::Validating(validation) => {
                let (next, step) = validation.advance(event);
                match step {
                    AuthStepView::Call(command) => (
                        LoginView::Validating(next),
                        StepView::Call(command),
                    ),
                    AuthStepView::Done(Ok(user_id)) => (
                        LoginView::Renewing { user_id },
                        StepView::Call(CommandView::RenewSession),
                    ),
                    AuthStepView::Done(Err(error)) => refused(LoginErrorView::from_auth(error)),
                }
            },
            LoginView::Renewing { user_id } => match event {
                EventView::Done => (
                    LoginView::Inserting,
                    StepView::Call(CommandView::InsertSessionUser { user_id }),
                ),
                _ => refused(LoginErrorView::UnexpectedError(fault_detail(event))),
            },
            LoginView::Inserting => match event {
                EventView::Done => (
                    LoginView::Finished,
                    StepView::Respond(
                        spec_plain(
                            ReplyView::Redirect { to: Location::AdminDashboard, flash: None },
                        ),
                    ),
                ),
                _ => refused(LoginErrorView::UnexpectedError(fault_detail(event))),
            },
            LoginView::Finished => refused(LoginErrorView::UnexpectedError(fault_detail(event))),
        }
    }
}

/// Starts a login: the credentials of the form are validated first.
pub fn login(form: FormData) -> (r: (Login, Step))
    ensures
        r.0@ == LoginView::Validating(ValidationView::Looking { password: form.password@ }),
        r.1@ == StepView::Call(CommandView::FetchCredentials { username: form.username@ }),
{
    let credentials = Credentials { username: form.username, password: form.password };
    let (validation, command) = validate_credentials(credentials);
    (Login::Validating(validation), Step::Call(command))
}

fn refuse(error: LoginError) -> (r: (Login, Step))
    ensures
        (r.0@, r.1@) == refused(error@),
{
    (Login::Finished, Step::Respond(login_redirect(error)))
}

impl Login {
    /// Takes what came of the last call and says what to do next.
    pub fn advance(self, event: Event) -> (r: (Login, Step))
        ensures
            (r.0@, r.1@) == self@.advance(event@),
    {
        match self {
            Login::Validating(validation) => {
                let (next, step) = validation.advance(event);
                match step {
                    AuthStep::Call(command) => (Login::Validating(next), Step::Call(command)),
                    AuthStep::Done(Ok(user_id)) => (
                        Login::Renewing { user_id },
                        Step::Call(TypedSession.renew()),
                    ),
                    AuthStep::Done(Err(error)) => refuse(LoginError::from_auth(error)),
                }
            },
            Login::Renewing { user_id } => match event {
                Event::Done => (
                    Login::Inserting,
                    Step::Call(TypedSession.insert_user_id(user_id)),
                ),
                other => refuse(LoginError::UnexpectedError(detail_of(other))),
            },
            Login::Inserting => match event {
                Event::Done => (
                    Login::Finished,
                    Step::Respond(
                        plain(Reply::Redirect { to: Location::AdminDashboard, flash: None }),
                    ),
                ),
                other => refuse(LoginError::UnexpectedError(detail_of(other))),
            },
            Login::Finished => refuse(LoginError::UnexpectedError(detail_of(event))),
        }
    }
}

} // verus!
