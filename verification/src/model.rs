//! A model of the collaborators that the workflows call, for stating what a
//! workflow achieves when its commands are carried out: a subscriber
//! repository with transactions, an outbox, a credential store, a password
//! hasher and a session store, none of which ever fails by itself.
//!
//! The model is ghost code. It says what each [`Command`] means; the driver
//! of a workflow is what makes it true.
//!
//! [`Command`]: crate::protocol::Command

use crate::authentication::{AuthStepView, ValidationView};
use crate::protocol::{
    CommandView, EventView, ResponseView, StepView, StoredCredentialsView, SubscriberId,
    SubscriptionStatus, UserId,
};
use crate::routes::admin::dashboard::Dashboard;
use crate::routes::admin::logout::Logout;
use crate::routes::admin::password::{PasswordChangeView, PasswordForm};
use crate::routes::login::LoginView;
use crate::routes::subscriptions::SubscriptionView;
use crate::routes::subscriptions_confirm::Confirmation;
use vstd::prelude::*;

verus! {

/// A subscriber as the repository holds it.
pub struct SubscriberRecord {
    pub email: Seq<char>,
    pub name: Seq<char>,
    pub status: SubscriptionStatus,
}

/// The subscriber repository: subscribers by identity, and the subscriber
/// that each confirmation token was issued for.
pub struct Repository {
    pub subscribers: Map<SubscriberId, SubscriberRecord>,
    pub tokens: Map<Seq<char>, SubscriberId>,
}

impl Repository {
    /// Every token was issued for a subscriber that the repository holds.
    pub open spec fn well_formed(self) -> bool {
        forall|token: Seq<char>| #[trigger]
            self.tokens.contains_key(token) ==> self.subscribers.contains_key(self.tokens[token])
    }

    /// Whether some subscriber has this address.
    pub open spec fn has_email(self, email: Seq<char>) -> bool {
        exists|id: SubscriberId| #[trigger]
            self.subscribers.contains_key(id) && self.subscribers[id].email == email
    }

    /// The subscriber that a token resolves to, if any.
    pub open spec fn resolve(self, token: Seq<char>) -> Option<SubscriberId> {
        if self.tokens.contains_key(token) {
            Some(self.tokens[token])
        } else {
            None
        }
    }

    /// Whether `token` resolves to `id`.
    pub open spec fn resolves_to(self, token: Seq<char>, id: SubscriberId) -> bool {
        self.resolve(token) == Some(id)
    }
}

/// An email that was sent.
pub struct Email {
    pub recipient: Seq<char>,
    pub subject: Seq<char>,
    pub html_body: Seq<char>,
    pub text_body: Seq<char>,
}

/// A password hasher: how it hashes, and which passwords it verifies against
/// which hash.
pub struct Hasher {
    pub hash: spec_fn(Seq<char>) -> Seq<char>,
    pub verify: spec_fn(Seq<char>, Seq<char>) -> bool,
}

impl Hasher {
    /// A hasher that verifies against a hash of its own making the password
    /// that was hashed, and no other.
    pub open spec fn is_faithful(self) -> bool {
        forall|hashed: Seq<char>, offered: Seq<char>|
            #[trigger] (self.verify)((self.hash)(hashed), offered) == (hashed == offered)
    }
}

/// Everything outside the workflows.
pub struct World {
    /// The repository as committed.
    pub repository: Repository,
    /// The repository as the open transaction sees it, if one is open.
    pub transaction: Option<Repository>,
    /// The emails sent so far.
    pub outbox: Seq<Email>,
    /// The credential store, by username.
    pub credentials: Map<Seq<char>, StoredCredentialsView>,
    /// The password hasher.
    pub hasher: Hasher,
    /// How many passwords have been verified so far.
    pub verifications: nat,
    /// The session store: for each live session id, its authenticated user.
    pub sessions: Map<int, Option<UserId>>,
    /// The id of the session of the request at hand.
    pub session: int,
    /// The id that the session store issues next.
    pub unused_session: int,
}

impl World {
    /// The session store issues no id that is or was in use.
    pub open spec fn well_formed(self) -> bool {
        &&& self.session < self.unused_session
        &&& forall|id: int| #[trigger] self.sessions.contains_key(id) ==> id < self.unused_session
    }

    /// The authenticated user of the session with this id, if it is live and
    /// has one.
    pub open spec fn user_of(self, id: int) -> Option<UserId> {
        if self.sessions.contains_key(id) {
            self.sessions[id]
        } else {
            None
        }
    }

    /// Whether `username` is the name of `user_id` in the credential store.
    pub open spec fn names(self, username: Seq<char>, user_id: UserId) -> bool {
        self.credentials.contains_key(username) && self.credentials[username].user_id == user_id
    }

    /// No two usernames belong to one user.
    pub open spec fn usernames_are_unique(self) -> bool {
        forall|a: Seq<char>, b: Seq<char>, user_id: UserId|
            #![trigger self.names(a, user_id), self.names(b, user_id)]
            self.names(a, user_id) && self.names(b, user_id) ==> a == b
    }

    /// The credential store once the hash of `user_id` is replaced.
    pub open spec fn with_password_hash(self, user_id: UserId, password_hash: Seq<char>) -> Map<
        Seq<char>,
        StoredCredentialsView,
    > {
        Map::new(
            |username: Seq<char>| self.credentials.contains_key(username),
            |username: Seq<char>|
                if self.credentials[username].user_id == user_id {
                    StoredCredentialsView { user_id, password_hash }
                } else {
                    self.credentials[username]
                },
        )
    }

    /// What carrying out `command` does to the world, and what comes of it.
    ///
    /// Inside a transaction the repository refuses a subscriber whose
    /// identity or address is taken, a token that exists, and a token for a
    /// subscriber that it does not hold; nothing of a transaction shows
    /// before it is committed, and opening a new one abandons the last.
    /// Renewing a session moves its attributes to an id that was never in use.
    pub open spec fn perform(self, command: CommandView) -> (World, EventView) {
        match command {
            CommandView::BeginTransaction => (
                World { transaction: Some(self.repository), ..self },
                EventView::Done,
            ),
            CommandView::InsertSubscriber { id, email, name, status } => match self.transaction {
                Some(open) => if open.subscribers.contains_key(id) || open.has_email(email) {
                    (self, EventView::Failed("duplicate key value"@))
                } else {
                    (
                        World {
                            transaction: Some(
                                Repository {
                                    subscribers: open.subscribers.insert(
                                        id,
                                        SubscriberRecord { email, name, status },
                                    ),
                                    ..open
                                },
                            ),
                            ..self
                        },
                        EventView::Done,
                    )
                },
                None => (self, EventView::Failed("no transaction is open"@)),
            },
            CommandView::StoreToken { subscriber_id, subscription_token } => {
                match self.transaction {
                    Some(open) => if open.tokens.contains_key(subscription_token)
                        || !open.subscribers.contains_key(subscriber_id) {
                        (self, EventView::Failed("constraint violated"@))
                    } else {
                        (
                            World {
                                transaction: Some(
                                    Repository {
                                        tokens: open.tokens.insert(
                                            subscription_token,
                                            subscriber_id,
                                        ),
                                        ..open
                                    },
                                ),
                                ..self
                            },
                            EventView::Done,
                        )
                    },
                    None => (self, EventView::Failed("no transaction is open"@)),
                }
            },
            CommandView::Commit => match self.transaction {
                Some(open) => (
                    World { repository: open, transaction: None, ..self },
                    EventView::Done,
                ),
                None => (self, EventView::Failed("no transaction is open"@)),
            },
            CommandView::SendEmail { recipient, subject, html_body, text_body } => (
                World {
                    outbox: self.outbox.push(Email { recipient, subject, html_body, text_body }),
                    ..self
                },
                EventView::Done,
            ),
            CommandView::ResolveToken { subscription_token } => (
                self,
                EventView::Subscriber(self.repository.resolve(subscription_token)),
            ),
            CommandView::ConfirmSubscriber { id } => if self.repository.subscribers.contains_key(
                id,
            ) {
                (
                    World {
                        repository: Repository {
                            subscribers: self.repository.subscribers.insert(
                                id,
                                SubscriberRecord {
                                    status: SubscriptionStatus::Confirmed,
                                    ..self.repository.subscribers[id]
                                },
                            ),
                            ..self.repository
                        },
                        ..self
                    },
                    EventView::Done,
                )
            } else {
                (self, EventView::Done)
            },
            CommandView::FetchCredentials { username } => (
                self,
                EventView::Credentials(
                    if self.credentials.contains_key(username) {
                        Some(self.credentials[username])
                    } else {
                        None
                    },
                ),
            ),
            CommandView::FetchUsername { user_id } => if exists|username: Seq<char>|
                self.names(username, user_id) {
                (
                    self,
                    EventView::Username(choose|username: Seq<char>| self.names(username, user_id)),
                )
            } else {
                (self, EventView::Failed("no rows returned"@))
            },
            CommandView::VerifyPassword { expected_hash, password } => (
                World { verifications: self.verifications + 1, ..self },
                EventView::PasswordVerdict((self.hasher.verify)(expected_hash, password)),
            ),
            CommandView::HashPassword { password, params } => (
                self,
                EventView::PasswordHash((self.hasher.hash)(password)),
            ),
            CommandView::StorePasswordHash { user_id, password_hash } => (
                World { credentials: self.with_password_hash(user_id, password_hash), ..self },
                EventView::Done,
            ),
            CommandView::ReadSessionUser => (self, EventView::SessionUser(self.user_of(self.session))),
            CommandView::RenewSession => (
                World {
                    sessions: self.sessions.remove(self.session).insert(
                        self.unused_session,
                        self.user_of(self.session),
                    ),
                    session: self.unused_session,
                    unused_session: self.unused_session + 1,
                    ..self
                },
                EventView::Done,
            ),
            CommandView::InsertSessionUser { user_id } => (
                World { sessions: self.sessions.insert(self.session, Some(user_id)), ..self },
                EventView::Done,
            ),
            CommandView::DestroySession => (
                World { sessions: self.sessions.remove(self.session), ..self },
                EventView::Done,
            ),
        }
    }

    /// A subscription driven to its end, or for `calls` calls: the world it
    /// leaves and the answer, if it came to one.
    pub open spec fn run_subscription(
        self,
        state: SubscriptionView,
        step: StepView,
        calls: nat,
    ) -> (World, Option<ResponseView>)
        decreases calls,
    {
        match step {
            StepView::Respond(response) => (self, Some(response)),
            StepView::Call(command) => if calls == 0 {
                (self, None)
            } else {
                let (world, event) = self.perform(command);
                let (next, then) = state.advance(event);
                world.run_subscription(next, then, (calls - 1) as nat)
            },
        }
    }

    /// A subscription driven like [`World::run_subscription`], but with
    /// faults: the call at position `i` is not carried out and fails where
    /// `faults[i]` holds.
    pub open spec fn run_subscription_with_faults(
        self,
        state: SubscriptionView,
        step: StepView,
        calls: nat,
        faults: Seq<bool>,
    ) -> (World, Option<ResponseView>)
        decreases calls,
    {
        match step {
            StepView::Respond(response) => (self, Some(response)),
            StepView::Call(command) => if calls == 0 {
                (self, None)
            } else {
                let (world, event) = if faults.len() > 0 && faults[0] {
                    (self, EventView::Failed("connection reset"@))
                } else {
                    self.perform(command)
                };
                let (next, then) = state.advance(event);
                world.run_subscription_with_faults(
                    next,
                    then,
                    (calls - 1) as nat,
                    if faults.len() > 0 {
                        faults.drop_first()
                    } else {
                        faults
                    },
                )
            },
        }
    }

    /// A request for the dashboard driven to its end, or for `calls` calls.
    pub open spec fn run_dashboard(self, state: Dashboard, step: StepView, calls: nat) -> (
        World,
        Option<ResponseView>,
    )
        decreases calls,
    {
        match step {
            StepView::Respond(response) => (self, Some(response)),
            StepView::Call(command) => if calls == 0 {
                (self, None)
            } else {
                let (world, event) = self.perform(command);
                let (next, then) = state.spec_advance(event);
                world.run_dashboard(next, then, (calls - 1) as nat)
            },
        }
    }

    /// A request for the password form driven to its end, or for `calls`
    /// calls.
    pub open spec fn run_password_form(self, state: PasswordForm, step: StepView, calls: nat) -> (
        World,
        Option<ResponseView>,
    )
        decreases calls,
    {
        match step {
            StepView::Respond(response) => (self, Some(response)),
            StepView::Call(command) => if calls == 0 {
                (self, None)
            } else {
                let (world, event) = self.perform(command);
                let (next, then) = state.spec_advance(event);
                world.run_password_form(next, then, (calls - 1) as nat)
            },
        }
    }

    /// A logout driven to its end, or for `calls` calls.
    pub open spec fn run_logout(self, state: Logout, step: StepView, calls: nat) -> (
        World,
        Option<ResponseView>,
    )
        decreases calls,
    {
        match step {
            StepView::Respond(response) => (self, Some(response)),
            StepView::Call(command) => if calls == 0 {
                (self, None)
            } else {
                let (world, event) = self.perform(command);
                let (next, then) = state.spec_advance(event);
                world.run_logout(next, then, (calls - 1) as nat)
            },
        }
    }

    /// A confirmation driven to its end, or for `calls` calls.
    pub open spec fn run_confirmation(self, state: Confirmation, step: StepView, calls: nat) -> (
        World,
        Option<ResponseView>,
    )
        decreases calls,
    {
        match step {
            StepView::Respond(response) => (self, Some(response)),
            StepView::Call(command) => if calls == 0 {
                (self, None)
            } else {
                let (world, event) = self.perform(command);
                let (next, then) = state.spec_advance(event);
                world.run_confirmation(next, then, (calls - 1) as nat)
            },
        }
    }

    /// A validation of credentials driven to its end, or for `calls` calls.
    pub open spec fn run_validation(self, state: ValidationView, step: AuthStepView, calls: nat) -> (
        World,
        Option<Result<UserId, crate::authentication::AuthErrorView>>,
    )
        decreases calls,
    {
        match step {
            AuthStepView::Done(outcome) => (self, Some(outcome)),
            AuthStepView::Call(command) => if calls == 0 {
                (self, None)
            } else {
                let (world, event) = self.perform(command);
                let (next, then) = state.advance(event);
                world.run_validation(next, then, (calls - 1) as nat)
            },
        }
    }

    /// A login driven to its end, or for `calls` calls.
    pub open spec fn run_login(self, state: LoginView, step: StepView, calls: nat) -> (
        World,
        Option<ResponseView>,
    )
        decreases calls,
    {
        match step {
            StepView::Respond(response) => (self, Some(response)),
            StepView::Call(command) => if calls == 0 {
                (self, None)
            } else {
                let (world, event) = self.perform(command);
                let (next, then) = state.advance(event);
                world.run_login(next, then, (calls - 1) as nat)
            },
        }
    }

    /// A change of password driven to its end, or for `calls` calls.
    pub open spec fn run_password_change(
        self,
        state: PasswordChangeView,
        step: StepView,
        calls: nat,
    ) -> (World, Option<ResponseView>)
        decreases calls,
    {
        match step {
            StepView::Respond(response) => (self, Some(response)),
            StepView::Call(command) => if calls == 0 {
                (self, None)
            } else {
                let (world, event) = self.perform(command);
                let (next, then) = state.advance(event);
                world.run_password_change(next, then, (calls - 1) as nat)
            },
        }
    }
}

} // verus!
