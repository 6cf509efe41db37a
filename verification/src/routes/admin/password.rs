//! Changing the administrator's password.

use crate::authentication::{
    compute_password_hash, current_hash_params, validate_credentials, AuthError, AuthErrorView, AuthStep, AuthStepView, Credentials,
    Validation, ValidationView,
};
use crate::protocol::{
    Command, CommandView, Event, EventView, Flash, FlashView, Level, Location, Page, PageView,
    Reply, ReplyView, Step, StepView, UserId,
};
use crate::routes::admin::dashboard::to_login;
use crate::utils::{detail_of, e500, fault_detail, plain, spec_e500, spec_plain};
use crate::session_state::TypedSession;
use vstd::prelude::*;

verus! {

/// The form that changes the password.
#[derive(Clone, PartialEq, Eq)]
pub struct FormData {
    pub current_password: String,
    pub new_password: String,
    pub new_password_check: String,
}

pub struct FormDataView {
    pub current_password: Seq<char>,
    pub new_password: Seq<char>,
    pub new_password_check: Seq<char>,
}

impl View for FormData {
    type V = FormDataView;

    open spec fn view(&self) -> FormDataView {
        FormDataView {
            current_password: self.current_password@,
            new_password: self.new_password@,
            new_password_check: self.new_password_check@,
        }
    }
}

/// How far the request for the form has come.
#[derive(Clone, Copy, Debug, PartialEq, Eq, Structural)]
pub enum PasswordForm {
    /// Waiting for the session's user.
    ReadingSession,
    /// Over: the client has been answered.
    Finished,
}

impl PasswordForm {
    /// The step that follows `event`: the form is shown to the user of an
    /// authenticated session, and a session without a user is sent to the
    /// login page.
    ///
    /// A workflow that is over answers whatever comes next with a fault.
    pub open spec fn spec_advance(self, event: EventView) -> (PasswordForm, StepView) {
        match (self, event) {
            (PasswordForm::ReadingSession, EventView::SessionUser(None)) => (
                PasswordForm::Finished,
                to_login(),
            ),
            (PasswordForm::ReadingSession, EventView::SessionUser(Some(_))) => (
                PasswordForm::Finished,
                StepView::Respond(spec_plain(ReplyView::Page(PageView::ChangePasswordForm))),
            ),
            _ => (PasswordForm::Finished, StepView::Respond(spec_e500(fault_detail(event)))),
        }
    }

    /// Takes what came of the last call and says what to do next.
    pub fn advance(self, event: Event) -> (r: (PasswordForm, Step))
        ensures
            (r.0, r.1@) == self.spec_advance(event@),
    {
        match (self, event) {
            (PasswordForm::ReadingSession, Event::SessionUser(None)) => (
                PasswordForm::Finished,
                Step::Respond(plain(Reply::Redirect { to: Location::Login, flash: None })),
            ),
            (PasswordForm::ReadingSession, Event::SessionUser(Some(_))) => (
                PasswordForm::Finished,
                Step::Respond(plain(Reply::Page(Page::ChangePasswordForm))),
            ),
            (_, event) => {
                let detail = detail_of(event);
                (PasswordForm::Finished, Step::Respond(e500(detail.as_str())))
            },
        }
    }
}

/// The form to change the password: starts by reading the session's user.
pub fn change_password_form() -> (r: (PasswordForm, Step))
    ensures
        r.0 == PasswordForm::ReadingSession,
        r.1@ == StepView::Call(CommandView::ReadSessionUser),
{
    (PasswordForm::ReadingSession, Step::Call(TypedSession.get_user_id()))
}

/// How far a change of password has come.
#[derive(PartialEq, Eq)]
pub enum PasswordChange {
    /// Waiting for the session's user.
    ReadingSession { form: FormData },
    /// Waiting for the user's name.
    FetchingUsername { user_id: UserId, current_password: String, new_password: String },
    /// The current password is being validated.
    Validating { user_id: UserId, new_password: String, validation: Validation },
    /// Waiting for the hash of the new password.
    Hashing { user_id: UserId },
    /// Waiting for the new hash to be stored.
    Storing,
    /// Over: the client has been answered.
    Finished,
}

pub enum PasswordChangeView {
    ReadingSession { form: FormDataView },
    FetchingUsername { user_id: UserId, current_password: Seq<char>, new_password: Seq<char> },
    Validating { user_id: UserId, new_password: Seq<char>, validation: ValidationView },
    Hashing { user_id: UserId },
    Storing,
    Finished,
}

impl View for PasswordChange {
    type V = PasswordChangeView;

    open spec fn view(&self) -> PasswordChangeView {
        match self {
            PasswordChange::ReadingSession { form } => PasswordChangeView::ReadingSession {
                form: form@,
            },
            PasswordChange::FetchingUsername { user_id, current_password, new_password } => {
                PasswordChangeView::FetchingUsername {
                    user_id: *user_id,
                    current_password: current_password@,
                    new_password: new_password@,
                }
            },
            PasswordChange::Validating { user_id, new_password, validation } => {
                PasswordChangeView::Validating {
                    user_id: *user_id,
                    new_password: new_password@,
                    validation: validation@,
                }
            },
            PasswordChange::Hashing { user_id } => PasswordChangeView::Hashing {
                user_id: *user_id,
            },
            PasswordChange::Storing => PasswordChangeView::Storing,
            PasswordChange::Finished => PasswordChangeView::Finished,
        }
    }
}

/// What the client is told where the two new passwords differ.
pub open spec fn mismatch_message() -> Seq<char> {
    "You entered two different new passwords - the field values must match."@
}

/// What the client is told where the current password is wrong.
pub open spec fn incorrect_message() -> Seq<char> {
    "The current password is incorrect."@
}

/// What the client is told once the password is changed.
pub open spec fn changed_message() -> Seq<char> {
    "Your password has been changed."@
}

/// Back to the form, with a message and nothing to report.
pub open spec fn back_to_form(message: Seq<char>) -> (PasswordChangeView, StepView) {
    (
        PasswordChangeView::Finished,
        StepView::Respond(
            spec_plain(
                ReplyView::Redirect {
                    to: Location::AdminPassword,
                    flash: Some(FlashView { level: Level::Error, message }),
                },
            ),
        ),
    )
}

/// A change of password that met a fault.
pub open spec fn broken(detail: Seq<char>) -> (PasswordChangeView, StepView) {
    (PasswordChangeView::Finished, StepView::Respond(spec_e500(detail)))
}

impl PasswordChangeView {
    /// The step that follows `event`.
    ///
    /// Nothing is changed for a session without a user, which is sent to the
    /// login page, nor where the two new passwords differ, nor where the
    /// current password is not validated for the session's user. Only then is
    /// the new password hashed, and the fresh hash stored in place of the old.
    /// A call that fails is answered with status 500.
    ///
    /// A workflow that is over answers whatever comes next with a fault.
    pub open spec fn advance(self, event: EventView) -> (PasswordChangeView, StepView) {
        let detail = fault_detail(event);
        match self {
            PasswordChangeView::ReadingSession { form } => match event {
                EventView::SessionUser(None) => (PasswordChangeView::Finished, to_login()),
                EventView::SessionUser(Some(user_id)) => if form.new_password
                    != form.new_password_check {
                    back_to_form(mismatch_message())
                } else {
                    (
                        PasswordChangeView::FetchingUsername {
                            user_id,
                            current_password: form.current_password,
                            new_password: form.new_password,
                        },
                        StepView::Call(CommandView::FetchUsername { user_id }),
                    )
                },
                _ => broken(detail),
            },
            PasswordChangeView::FetchingUsername { user_id, current_password, new_password } => {
                match event {
                    EventView::Username(username) => (
                        PasswordChangeView::Validating {
                            user_id,
                            new_password,
                            validation: ValidationView::Looking { password: current_password },
                        },
                        StepView::Call(CommandView::FetchCredentials { username }),
                    ),
                    _ => broken(detail),
                }
            },
            PasswordChangeView::Validating { user_id, new_password, validation } => {
                let (next, step) = validation.advance(event);
                match step {
                    AuthStepView::Call(command) => (
                        PasswordChangeView::Validating { user_id, new_password, validation: next },
                        StepView::Call(command),
                    ),
                    AuthStepView::Done(Ok(_)) => (
                        PasswordChangeView::Hashing { user_id },
                        StepView::Call(
                            CommandView::HashPassword {
                                password: new_password,
                                params: current_hash_params(),
                            },
                        ),
                    ),
                    AuthStepView::Done(Err(AuthErrorView::InvalidCredentials(_))) => back_to_form(
                        incorrect_message(),
                    ),
                    AuthStepView::Done(Err(AuthErrorView::UnexpectedError(cause))) => broken(
                        cause,
                    ),
                }
            },
            PasswordChangeView::Hashing { user_id } => match event {
                EventView::PasswordHash(password_hash) => (
                    PasswordChangeView::Storing,
                    StepView::Call(CommandView::StorePasswordHash { user_id, password_hash }),
                ),
                _ => broken(detail),
            },
            PasswordChangeView::Storing => match event {
                EventView::Done => back_to_form(changed_message()),
                _ => broken(detail),
            },
            PasswordChangeView::Finished => broken(detail),
        }
    }
}

/// Changes the password: starts by reading the session's user.
pub fn change_password(form: FormData) -> (r: (PasswordChange, Step))
    ensures
        r.0@ == (PasswordChangeView::ReadingSession { form: form@ }),
        r.1@ == StepView::Call(CommandView::ReadSessionUser),
{
    (PasswordChange::ReadingSession { form }, Step::Call(TypedSession.get_user_id()))
}

fn back(message: &str) -> (r: (PasswordChange, Step))
    ensures
        (r.0@, r.1@) == back_to_form(message@),
{
    (
        PasswordChange::Finished,
        Step::Respond(
            plain(
                Reply::Redirect {
                    to: Location::AdminPassword,
                    flash: Some(Flash { level: Level::Error, message: String::from_str(message) }),
                },
            ),
        ),
    )
}

fn fault(detail: String) -> (r: (PasswordChange, Step))
    ensures
        (r.0@, r.1@) == broken(detail@),
{
    (PasswordChange::Finished, Step::Respond(e500(detail.as_str())))
}

impl PasswordChange {
    /// Takes what came of the last call and says what to do next.
    pub fn advance(self, event: Event) -> (r: (PasswordChange, Step))
        ensures
            (r.0@, r.1@) == self@.advance(event@),
    {
        match self {
            PasswordChange::ReadingSession { form } => match event {
                Event::SessionUser(None) => (
                    PasswordChange::Finished,
                    Step::Respond(plain(Reply::Redirect { to: Location::Login, flash: None })),
                ),
                Event::SessionUser(Some(user_id)) => {
                    if form.new_password != form.new_password_check {
                        back("You entered two different new passwords - the field values must match.")
                    } else {
                        (
                            PasswordChange::FetchingUsername {
                                user_id,
                                current_password: form.current_password,
                                new_password: form.new_password,
                            },
                            Step::Call(Command::FetchUsername { user_id }),
                        )
                    }
                },
                other => fault(detail_of(other)),
            },
            PasswordChange::FetchingUsername { user_id, current_password, new_password } => {
                match event {
                    Event::Username(username) => {
                        let (validation, command) = validate_credentials(
                            Credentials { username, password: current_password },
                        );
                        (
                            PasswordChange::Validating { user_id, new_password, validation },
                            Step::Call(command),
                        )
                    },
                    other => fault(detail_of(other)),
                }
            },
            PasswordChange::Validating { user_id, new_password, validation } => {
                let (next, step) = validation.advance(event);
                match step {
                    AuthStep::Call(command) => (
                        PasswordChange::Validating { user_id, new_password, validation: next },
                        Step::Call(command),
                    ),
                    AuthStep::Done(Ok(_)) => (
                        PasswordChange::Hashing { user_id },
                        Step::Call(compute_password_hash(new_password)),
                    ),
                    AuthStep::Done(Err(AuthError::InvalidCredentials(_))) => back(
                        "The current password is incorrect.",
                    ),
                    AuthStep::Done(Err(AuthError::UnexpectedError(cause))) => fault(cause),
                }
            },
            PasswordChange::Hashing { user_id } => match event {
                Event::PasswordHash(password_hash) => (
                    PasswordChange::Storing,
                    Step::Call(Command::StorePasswordHash { user_id, password_hash }),
                ),
                other => fault(detail_of(other)),
            },
            PasswordChange::Storing => match event {
                Event::Done => back("Your password has been changed."),
                other => fault(detail_of(other)),
            },
            PasswordChange::Finished => fault(detail_of(event)),
        }
    }
}

} // verus!
