//! Validating an administrator's credentials against the stored password
//! hash.

use crate::protocol::{Command, CommandView, Event, EventView, HashParams, UserId};
use crate::utils::{detail_of, fault_detail};
use vstd::prelude::*;

verus! {

/// The hash that a password is verified against where the username is not
/// known, so that an unknown username costs as much work as a wrong password.
pub const FALLBACK_PASSWORD_HASH: &'static str =
    "$argon2id$v=19$m=15000,t=2,p=1$gZiV/M1gPc22ElAH/Jh1Hw$CWOrkoo7oJBQ/iyh7uJ0LO2aLEfrHwTWllSAxT0zRno";

/// The memory that hashing a new password takes, in KiB.
pub const HASH_MEMORY_KIB: u32 = 15000;

/// The passes that hashing a new password makes over the memory.
pub const HASH_ITERATIONS: u32 = 2;

/// The lanes that hashing a new password uses.
pub const HASH_PARALLELISM: u32 = 1;

/// The cost at which new passwords are hashed. A stored hash says at which
/// cost it was made, so hashes made at another cost stay verifiable.
pub open spec fn current_hash_params() -> HashParams {
    HashParams {
        memory_kib: HASH_MEMORY_KIB,
        iterations: HASH_ITERATIONS,
        parallelism: HASH_PARALLELISM,
    }
}

/// The call that hashes a new password, at the current cost.
pub fn compute_password_hash(password: String) -> (command: Command)
    ensures
        command@ == (CommandView::HashPassword {
            password: password@,
            params: current_hash_params(),
        }),
{
    Command::HashPassword {
        password,
        params: HashParams {
            memory_kib: HASH_MEMORY_KIB,
            iterations: HASH_ITERATIONS,
            parallelism: HASH_PARALLELISM,
        },
    }
}

/// A username and the password offered for it.
#[derive(Clone, PartialEq, Eq)]
pub struct Credentials {
    pub username: String,
    pub password: String,
}

pub struct CredentialsView {
    pub username: Seq<char>,
    pub password: Seq<char>,
}

impl View for Credentials {
    type V = CredentialsView;

    open spec fn view(&self) -> CredentialsView {
        CredentialsView { username: self.username@, password: self.password@ }
    }
}

/// Why credentials were not accepted.
#[derive(Debug, PartialEq, Eq)]
pub enum AuthError {
    /// The username is not known or the password is wrong. The text says
    /// which, for the log; the client must not learn it.
    InvalidCredentials(String),
    /// The credential store or the password hasher failed.
    UnexpectedError(String),
}

pub enum AuthErrorView {
    InvalidCredentials(Seq<char>),
    UnexpectedError(Seq<char>),
}

impl View for AuthError {
    type V = AuthErrorView;

    open spec fn view(&self) -> AuthErrorView {
        match self {
            AuthError::InvalidCredentials(cause) => AuthErrorView::InvalidCredentials(cause@),
            AuthError::UnexpectedError(cause) => AuthErrorView::UnexpectedError(cause@),
        }
    }
}

impl AuthErrorView {
    /// The error in words. Invalid credentials read the same whatever made
    /// them invalid.
    pub open spec fn message(self) -> Seq<char> {
        match self {
            AuthErrorView::InvalidCredentials(_) => "Invalid credentials."@,
            AuthErrorView::UnexpectedError(cause) => cause,
        }
    }
}

impl AuthError {
    /// The error in words.
    pub fn message(&self) -> (text: String)
        ensures
            text@ == self@.message(),
    {
        match self {
            AuthError::InvalidCredentials(_) => String::from_str("Invalid credentials."),
            AuthError::UnexpectedError(cause) => cause.clone(),
        }
    }
}

/// How far the validation of credentials has come.
#[derive(PartialEq, Eq)]
pub enum Validation {
    /// Waiting for the stored record of the username; holds the password
    /// offered.
    Looking { password: String },
    /// Waiting for the hasher's verdict; holds the user that the stored
    /// record names, if there is a record.
    Verifying { user_id: Option<UserId> },
    /// Over.
    Finished,
}

pub enum ValidationView {
    Looking { password: Seq<char> },
    Verifying { user_id: Option<UserId> },
    Finished,
}

impl View for Validation {
    type V = ValidationView;

    open spec fn view(&self) -> ValidationView {
        match self {
            Validation::Looking { password } => ValidationView::Looking { password: password@ },
            Validation::Verifying { user_id } => ValidationView::Verifying { user_id: *user_id },
            Validation::Finished => ValidationView::Finished,
        }
    }
}

/// What the validation asks of its driver next.
#[derive(Debug, PartialEq, Eq)]
pub enum AuthStep {
    /// Carry out the command and come back with what came of it.
    Call(Command),
    /// The validation is over: the user that the credentials belong to, or
    /// why they were not accepted.
    Done(Result<UserId, AuthError>),
}

pub enum AuthStepView {
    Call(CommandView),
    Done(Result<UserId, AuthErrorView>),
}

impl View for AuthStep {
    type V = AuthStepView;

    open spec fn view(&self) -> AuthStepView {
        match self {
            AuthStep::Call(command) => AuthStepView::Call(command@),
            AuthStep::Done(Ok(user_id)) => AuthStepView::Done(Ok(*user_id)),
            AuthStep::Done(Err(error)) => AuthStepView::Done(Err(error@)),
        }
    }
}

/// The fault reported where the credential store fails.
pub open spec fn lookup_failure(detail: Seq<char>) -> AuthErrorView {
    AuthErrorView::UnexpectedError(
        "Failed to perform a query to retrieve stored credentials: "@ + detail,
    )
}

/// The fault reported where the password hasher fails.
pub open spec fn hasher_failure(detail: Seq<char>) -> AuthErrorView {
    AuthErrorView::UnexpectedError("Failed to verify the password hash: "@ + detail)
}

/// A validation that is over.
pub open spec fn done(outcome: Result<UserId, AuthErrorView>) -> (ValidationView, AuthStepView) {
    (ValidationView::Finished, AuthStepView::Done(outcome))
}

impl ValidationView {
    /// The step that follows `event`.
    ///
    /// Whether or not a record is stored for the username, the password is
    /// verified once: against the stored hash, or against the fallback hash.
    /// The credentials are accepted only if there is a record and the
    /// password matches its hash. An unknown username and a wrong password
    /// both give `InvalidCredentials`; a failing store or hasher gives
    /// `UnexpectedError`.
    ///
    /// A workflow that is over answers whatever comes next with a fault.
    pub open spec fn advance(self, event: EventView) -> (ValidationView, AuthStepView) {
        match self {
            ValidationView::Looking { password } => match event {
                EventView::Credentials(Some(stored)) => (
                    ValidationView::Verifying { user_id: Some(stored.user_id) },
                    AuthStepView::Call(
                        CommandView::VerifyPassword {
                            expected_hash: stored.password_hash,
                            password,
                        },
                    ),
                ),
                EventView::Credentials(None) => (
                    ValidationView::Verifying { user_id: None },
                    AuthStepView::Call(
                        CommandView::VerifyPassword {
                            expected_hash: FALLBACK_PASSWORD_HASH@,
                            password,
                        },
                    ),
                ),
                _ => done(Err(lookup_failure(fault_detail(event)))),
            },
            ValidationView::Verifying { user_id } => match event {
                EventView::PasswordVerdict(true) => match user_id {
                    Some(id) => done(Ok(id)),
                    None => done(Err(AuthErrorView::InvalidCredentials("Unknown username."@))),
                },
                EventView::PasswordVerdict(false) => done(
                    Err(AuthErrorView::InvalidCredentials("Invalid password."@)),
                ),
                _ => done(Err(hasher_failure(fault_detail(event)))),
            },
            ValidationView::Finished => done(Err(lookup_failure(fault_detail(event)))),
        }
    }
}

/// Validate credentials: starts by looking up what is stored for the
/// username.
pub fn validate_credentials(credentials: Credentials) -> (r: (Validation, Command))
    ensures
        r.0@ == (ValidationView::Looking { password: credentials@.password }),
        r.1@ == (CommandView::FetchCredentials { username: credentials@.username }),
{
    (
        Validation::Looking { password: credentials.password },
        Command::FetchCredentials { username: credentials.username },
    )
}

impl Validation {
    /// Takes what came of the last call and says what to do next.
    pub fn advance(self, event: Event) -> (r: (Validation, AuthStep))
        ensures
            (r.0@, r.1@) == self@.advance(event@),
    {
        match (self, event) {
            (Validation::Looking { password }, Event::Credentials(Some(stored))) => (
                Validation::Verifying { user_id: Some(stored.user_id) },
                AuthStep::Call(
                    Command::VerifyPassword { expected_hash: stored.password_hash, password },
                ),
            ),
            (Validation::Looking { password }, Event::Credentials(None)) => (
                Validation::Verifying { user_id: None },
                AuthStep::Call(
                    Command::VerifyPassword {
                        expected_hash: String::from_str(FALLBACK_PASSWORD_HASH),
                        password,
                    },
                ),
            ),
            (Validation::Verifying { user_id: Some(id) }, Event::PasswordVerdict(true)) => (
                Validation::Finished,
                AuthStep::Done(Ok(id)),
            ),
            (Validation::Verifying { user_id: None }, Event::PasswordVerdict(true)) => (
                Validation::Finished,
                AuthStep::Done(
                    Err(AuthError::InvalidCredentials(String::from_str("Unknown username."))),
                ),
            ),
            (Validation::Verifying { .. }, Event::PasswordVerdict(false)) => (
                Validation::Finished,
                AuthStep::Done(
                    Err(AuthError::InvalidCredentials(String::from_str("Invalid password."))),
                ),
            ),
            (Validation::Verifying { .. }, event) => {
                let detail = detail_of(event);
                (
                    Validation::Finished,
                    AuthStep::Done(
                        Err(
                            AuthError::UnexpectedError(
                                String::from_str("Failed to verify the password hash: ").concat(
                                    detail.as_str(),
                                ),
                            ),
                        ),
                    ),
                )
            },
            (_, event) => {
                let detail = detail_of(event);
                (
                    Validation::Finished,
                    AuthStep::Done(
                        Err(
                            AuthError::UnexpectedError(
                                String::from_str(
                                    "Failed to perform a query to retrieve stored credentials: ",
                                ).concat(detail.as_str()),
                            ),
                        ),
                    ),
                )
            },
        }
    }
}

} // verus!
