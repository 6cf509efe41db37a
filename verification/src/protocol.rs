//! The vocabulary shared by every workflow. A workflow never performs outside
//! work itself: it hands its driver a [`Command`], the driver carries it out
//! and hands back an [`Event`], until the workflow ends with a [`Response`].

use vstd::prelude::*;

verus! {

/// Identifies a subscriber.
#[derive(Clone, Copy, Debug, PartialEq, Eq, Structural)]
pub struct SubscriberId(pub u128);

/// Identifies an administrator.
#[derive(Clone, Copy, Debug, PartialEq, Eq, Structural)]
pub struct UserId(pub u128);

/// Whether a subscriber has followed the confirmation link yet.
#[derive(Clone, Copy, Debug, PartialEq, Eq, Structural)]
pub enum SubscriptionStatus {
    PendingConfirmation,
    Confirmed,
}

/// The cost of hashing a password: memory in KiB, passes over it, and lanes.
#[derive(Clone, Copy, Debug, PartialEq, Eq, Structural)]
pub struct HashParams {
    pub memory_kib: u32,
    pub iterations: u32,
    pub parallelism: u32,
}

/// The status codes that the service answers with.
#[derive(Clone, Copy, Debug, PartialEq, Eq, Structural)]
pub enum StatusCode {
    Success,
    BadRequest,
    Unauthorized,
    InternalServerError,
}

/// The pages that a redirect can lead to.
#[derive(Clone, Copy, Debug, PartialEq, Eq, Structural)]
pub enum Location {
    Login,
    AdminDashboard,
    AdminPassword,
}

/// How a flash message is presented.
#[derive(Clone, Copy, Debug, PartialEq, Eq, Structural)]
pub enum Level {
    Info,
    Error,
}

/// A one-time message shown on the page that a redirect leads to.
#[derive(Clone, Debug, PartialEq, Eq)]
pub struct Flash {
    pub level: Level,
    pub message: String,
}

pub struct FlashView {
    pub level: Level,
    pub message: Seq<char>,
}

impl View for Flash {
    type V = FlashView;

    open spec fn view(&self) -> FlashView {
        FlashView { level: self.level, message: self.message@ }
    }
}

/// A page to render.
#[derive(Clone, Debug, PartialEq, Eq)]
pub enum Page {
    /// The login form.
    Login,
    /// The dashboard of the administrator with this name.
    AdminDashboard { username: String },
    /// The form that changes the password.
    ChangePasswordForm,
}

pub enum PageView {
    Login,
    AdminDashboard { username: Seq<char> },
    ChangePasswordForm,
}

impl View for Page {
    type V = PageView;

    open spec fn view(&self) -> PageView {
        match self {
            Page::Login => PageView::Login,
            Page::AdminDashboard { username } => PageView::AdminDashboard { username: username@ },
            Page::ChangePasswordForm => PageView::ChangePasswordForm,
        }
    }
}

/// What the client is answered.
#[derive(Clone, Debug, PartialEq, Eq)]
pub enum Reply {
    /// A bare status code.
    Status(StatusCode),
    /// Status 400, with the reason for which the request was refused.
    Invalid(String),
    /// A redirect, with the flash message to show there, if any.
    Redirect { to: Location, flash: Option<Flash> },
    /// A rendered page.
    Page(Page),
}

pub enum ReplyView {
    Status(StatusCode),
    Invalid(Seq<char>),
    Redirect { to: Location, flash: Option<FlashView> },
    Page(PageView),
}

impl View for Reply {
    type V = ReplyView;

    open spec fn view(&self) -> ReplyView {
        match self {
            Reply::Status(code) => ReplyView::Status(*code),
            Reply::Invalid(reason) => ReplyView::Invalid(reason@),
            Reply::Redirect { to, flash } => ReplyView::Redirect {
                to: *to,
                flash: match flash {
                    Some(f) => Some(f@),
                    None => None,
                },
            },
            Reply::Page(page) => ReplyView::Page(page@),
        }
    }
}

/// The end of a workflow: the answer for the client and, where something
/// went wrong on the server's side, the report to log there. The client never
/// sees the report.
#[derive(Clone, Debug, PartialEq, Eq)]
pub struct Response {
    pub reply: Reply,
    pub report: Option<String>,
}

pub struct ResponseView {
    pub reply: ReplyView,
    pub report: Option<Seq<char>>,
}

impl View for Response {
    type V = ResponseView;

    open spec fn view(&self) -> ResponseView {
        ResponseView {
            reply: self.reply@,
            report: match self.report {
                Some(r) => Some(r@),
                None => None,
            },
        }
    }
}

/// A username's record in the credential store.
#[derive(Clone, Debug, PartialEq, Eq)]
pub struct StoredCredentials {
    pub user_id: UserId,
    pub password_hash: String,
}

pub struct StoredCredentialsView {
    pub user_id: UserId,
    pub password_hash: Seq<char>,
}

impl View for StoredCredentials {
    type V = StoredCredentialsView;

    open spec fn view(&self) -> StoredCredentialsView {
        StoredCredentialsView { user_id: self.user_id, password_hash: self.password_hash@ }
    }
}

/// One call on an outside collaborator: the subscriber repository, the email
/// notifier, the credential store, the password hasher or the session store.
#[derive(Clone, Debug, PartialEq, Eq)]
pub enum Command {
    /// Open a transaction on the subscriber repository.
    BeginTransaction,
    /// Insert a subscriber, inside the open transaction.
    InsertSubscriber { id: SubscriberId, email: String, name: String, status: SubscriptionStatus },
    /// Insert a confirmation token for a subscriber, inside the open transaction.
    StoreToken { subscriber_id: SubscriberId, subscription_token: String },
    /// Commit the open transaction.
    Commit,
    /// Send one email; a single attempt.
    SendEmail { recipient: String, subject: String, html_body: String, text_body: String },
    /// Look up the subscriber that a confirmation token was issued for.
    ResolveToken { subscription_token: String },
    /// Set a subscriber's status to confirmed.
    ConfirmSubscriber { id: SubscriberId },
    /// Look up the record stored for a username.
    FetchCredentials { username: String },
    /// Look up the username of an administrator.
    FetchUsername { user_id: UserId },
    /// Verify a password against a password hash.
    VerifyPassword { expected_hash: String, password: String },
    /// Compute a hash of a password at the given cost, with a fresh salt.
    HashPassword { password: String, params: HashParams },
    /// Replace the password hash stored for an administrator.
    StorePasswordHash { user_id: UserId, password_hash: String },
    /// Read the authenticated user of the request's session.
    ReadSessionUser,
    /// Give the request's session a new id, keeping its attributes.
    RenewSession,
    /// Record the authenticated user in the request's session.
    InsertSessionUser { user_id: UserId },
    /// Destroy the request's session.
    DestroySession,
}

pub enum CommandView {
    BeginTransaction,
    InsertSubscriber {
        id: SubscriberId,
        email: Seq<char>,
        name: Seq<char>,
        status: SubscriptionStatus,
    },
    StoreToken { subscriber_id: SubscriberId, subscription_token: Seq<char> },
    Commit,
    SendEmail {
        recipient: Seq<char>,
        subject: Seq<char>,
        html_body: Seq<char>,
        text_body: Seq<char>,
    },
    ResolveToken { subscription_token: Seq<char> },
    ConfirmSubscriber { id: SubscriberId },
    FetchCredentials { username: Seq<char> },
    FetchUsername { user_id: UserId },
    VerifyPassword { expected_hash: Seq<char>, password: Seq<char> },
    HashPassword { password: Seq<char>, params: HashParams },
    StorePasswordHash { user_id: UserId, password_hash: Seq<char> },
    ReadSessionUser,
    RenewSession,
    InsertSessionUser { user_id: UserId },
    DestroySession,
}

impl View for Command {
    type V = CommandView;

    open spec fn view(&self) -> CommandView {
        match self {
            Command::BeginTransaction => CommandView::BeginTransaction,
            Command::InsertSubscriber { id, email, name, status } => CommandView::InsertSubscriber {
                id: *id,
                email: email@,
                name: name@,
                status: *status,
            },
            Command::StoreToken { subscriber_id, subscription_token } => CommandView::StoreToken {
                subscriber_id: *subscriber_id,
                subscription_token: subscription_token@,
            },
            Command::Commit => CommandView::Commit,
            Command::SendEmail { recipient, subject, html_body, text_body } => {
                CommandView::SendEmail {
                    recipient: recipient@,
                    subject: subject@,
                    html_body: html_body@,
                    text_body: text_body@,
                }
            },
            Command::ResolveToken { subscription_token } => CommandView::ResolveToken {
                subscription_token: subscription_token@,
            },
            Command::ConfirmSubscriber { id } => CommandView::ConfirmSubscriber { id: *id },
            Command::FetchCredentials { username } => CommandView::FetchCredentials {
                username: username@,
            },
            Command::FetchUsername { user_id } => CommandView::FetchUsername { user_id: *user_id },
            Command::VerifyPassword { expected_hash, password } => CommandView::VerifyPassword {
                expected_hash: expected_hash@,
                password: password@,
            },
            Command::HashPassword { password, params } => CommandView::HashPassword {
                password: password@,
                params: *params,
            },
            Command::StorePasswordHash { user_id, password_hash } => {
                CommandView::StorePasswordHash { user_id: *user_id, password_hash: password_hash@ }
            },
            Command::ReadSessionUser => CommandView::ReadSessionUser,
            Command::RenewSession => CommandView::RenewSession,
            Command::InsertSessionUser { user_id } => CommandView::InsertSessionUser {
                user_id: *user_id,
            },
            Command::DestroySession => CommandView::DestroySession,
        }
    }
}

/// What came of a [`Command`].
#[derive(Clone, Debug, PartialEq, Eq)]
pub enum Event {
    /// A call that returns nothing went through.
    Done,
    /// The call failed; the text describes the fault.
    Failed(String),
    /// The subscriber that a token resolves to, if any.
    Subscriber(Option<SubscriberId>),
    /// The record stored for a username, if any.
    Credentials(Option<StoredCredentials>),
    /// An administrator's username.
    Username(String),
    /// Whether the password matched the hash.
    PasswordVerdict(bool),
    /// A freshly computed password hash.
    PasswordHash(String),
    /// The authenticated user of the session, if any.
    SessionUser(Option<UserId>),
}

pub enum EventView {
    Done,
    Failed(Seq<char>),
    Subscriber(Option<SubscriberId>),
    Credentials(Option<StoredCredentialsView>),
    Username(Seq<char>),
    PasswordVerdict(bool),
    PasswordHash(Seq<char>),
    SessionUser(Option<UserId>),
}

impl View for Event {
    type V = EventView;

    open spec fn view(&self) -> EventView {
        match self {
            Event::Done => EventView::Done,
            Event::Failed(detail) => EventView::Failed(detail@),
            Event::Subscriber(id) => EventView::Subscriber(*id),
            Event::Credentials(stored) => EventView::Credentials(
                match stored {
                    Some(c) => Some(c@),
                    None => None,
                },
            ),
            Event::Username(username) => EventView::Username(username@),
            Event::PasswordVerdict(verdict) => EventView::PasswordVerdict(*verdict),
            Event::PasswordHash(hash) => EventView::PasswordHash(hash@),
            Event::SessionUser(user) => EventView::SessionUser(*user),
        }
    }
}

/// What a workflow asks of its driver next.
#[derive(Clone, Debug, PartialEq, Eq)]
pub enum Step {
    /// Carry out the command and come back with what came of it.
    Call(Command),
    /// The workflow is over.
    Respond(Response),
}

pub enum StepView {
    Call(CommandView),
    Respond(ResponseView),
}

impl View for Step {
    type V = StepView;

    open spec fn view(&self) -> StepView {
        match self {
            Step::Call(command) => StepView::Call(command@),
            Step::Respond(response) => StepView::Respond(response@),
        }
    }
}

impl SubscriptionStatus {
    /// The name under which the repository keeps the status.
    pub open spec fn spec_as_str(self) -> Seq<char> {
        match self {
            SubscriptionStatus::PendingConfirmation => "pending_confirmation"@,
            SubscriptionStatus::Confirmed => "confirmed"@,
        }
    }

    /// The name under which the repository keeps the status.
    pub fn as_str(self) -> (name: &'static str)
        ensures
            name@ == self.spec_as_str(),
    {
        match self {
            SubscriptionStatus::PendingConfirmation => "pending_confirmation",
            SubscriptionStatus::Confirmed => "confirmed",
        }
    }
}

impl StatusCode {
    /// The number of the status code.
    pub open spec fn spec_code(self) -> u16 {
        match self {
            StatusCode::Success => 200,
            StatusCode::BadRequest => 400,
            StatusCode::Unauthorized => 401,
            StatusCode::InternalServerError => 500,
        }
    }

    /// The number of the status code.
    pub fn code(self) -> (n: u16)
        ensures
            n == self.spec_code(),
    {
        match self {
            StatusCode::Success => 200,
            StatusCode::BadRequest => 400,
            StatusCode::Unauthorized => 401,
            StatusCode::InternalServerError => 500,
        }
    }
}

impl Location {
    /// The path of the page.
    pub open spec fn spec_path(self) -> Seq<char> {
        match self {
            Location::Login => "/login"@,
            Location::AdminDashboard => "/admin/dashboard"@,
            Location::AdminPassword => "/admin/password"@,
        }
    }

    /// The path of the page.
    pub fn path(self) -> (p: &'static str)
        ensures
            p@ == self.spec_path(),
    {
        match self {
            Location::Login => "/login",
            Location::AdminDashboard => "/admin/dashboard",
            Location::AdminPassword => "/admin/password",
        }
    }
}

} // verus!
