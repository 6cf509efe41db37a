use newsletter::authentication::{
    validate_credentials, AuthError, AuthStep, Credentials, FALLBACK_PASSWORD_HASH,
};
use newsletter::protocol::{
    Command, Event, Flash, HashParams, Level, Location, Page, Reply, Response, StatusCode, Step,
    StoredCredentials, SubscriberId, SubscriptionStatus, UserId,
};
use newsletter::routes::admin::dashboard::admin_dashboard;
use newsletter::routes::admin::logout::log_out;
use newsletter::routes::admin::password::{change_password, change_password_form};
use newsletter::routes::login::login;
use newsletter::routes::subscriptions::{is_valid_token, subscribe, subscribe_with, FormData};
use newsletter::routes::subscriptions_confirm::{confirm, Parameters};
use std::collections::HashMap;

// A stand-in for everything that the workflows call.

#[derive(Clone, Debug, PartialEq)]
struct Subscriber {
    email: String,
    name: String,
    status: SubscriptionStatus,
}

#[derive(Clone, Debug, Default, PartialEq)]
struct Repository {
    subscribers: HashMap<u128, Subscriber>,
    tokens: HashMap<String, u128>,
}

#[derive(Clone, Debug, PartialEq)]
struct Sent {
    recipient: String,
    subject: String,
    html_body: String,
    text_body: String,
}

#[derive(Default)]
struct World {
    repository: Repository,
    transaction: Option<Repository>,
    outbox: Vec<Sent>,
    credentials: HashMap<String, (u128, String)>,
    verifications: usize,
    sessions: HashMap<u64, Option<u128>>,
    session: u64,
    unused_session: u64,
    log: Vec<Command>,
    failing: Option<usize>,
}

fn hash_of(password: &str) -> String {
    format!("hashed<{password}>")
}

impl World {
    fn new() -> World {
        let mut world = World::default();
        world.session = 1;
        world.unused_session = 2;
        world.sessions.insert(1, None);
        world
    }

    fn with_admin(user_id: u128, username: &str, password: &str) -> World {
        let mut world = World::new();
        world.credentials.insert(username.to_string(), (user_id, hash_of(password)));
        world
    }

    fn user(&self) -> Option<u128> {
        self.sessions.get(&self.session).copied().flatten()
    }

    fn perform(&mut self, command: Command) -> Event {
        self.log.push(command.clone());
        if self.failing == Some(self.log.len()) {
            return Event::Failed("connection reset".to_string());
        }
        match command {
            Command::BeginTransaction => {
                self.transaction = Some(self.repository.clone());
                Event::Done
            }
            Command::InsertSubscriber { id, email, name, status } => {
                let open = self.transaction.as_mut().unwrap();
                if open.subscribers.contains_key(&id.0)
                    || open.subscribers.values().any(|s| s.email == email)
                {
                    return Event::Failed("duplicate key value".to_string());
                }
                open.subscribers.insert(id.0, Subscriber { email, name, status });
                Event::Done
            }
            Command::StoreToken { subscriber_id, subscription_token } => {
                let open = self.transaction.as_mut().unwrap();
                if open.tokens.contains_key(&subscription_token)
                    || !open.subscribers.contains_key(&subscriber_id.0)
                {
                    return Event::Failed("constraint violated".to_string());
                }
                open.tokens.insert(subscription_token, subscriber_id.0);
                Event::Done
            }
            Command::Commit => {
                self.repository = self.transaction.take().unwrap();
                Event::Done
            }
            Command::SendEmail { recipient, subject, html_body, text_body } => {
                self.outbox.push(Sent { recipient, subject, html_body, text_body });
                Event::Done
            }
            Command::ResolveToken { subscription_token } => Event::Subscriber(
                self.repository.tokens.get(&subscription_token).map(|id| SubscriberId(*id)),
            ),
            Command::ConfirmSubscriber { id } => {
                if let Some(subscriber) = self.repository.subscribers.get_mut(&id.0) {
                    subscriber.status = SubscriptionStatus::Confirmed;
                }
                Event::Done
            }
            Command::FetchCredentials { username } => {
                Event::Credentials(self.credentials.get(&username).map(|(id, hash)| {
                    StoredCredentials { user_id: UserId(*id), password_hash: hash.clone() }
                }))
            }
            Command::FetchUsername { user_id } => {
                match self.credentials.iter().find(|(_, (id, _))| *id == user_id.0) {
                    Some((username, _)) => Event::Username(username.clone()),
                    None => Event::Failed("no rows returned".to_string()),
                }
            }
            Command::VerifyPassword { expected_hash, password } => {
                self.verifications += 1;
                Event::PasswordVerdict(expected_hash == hash_of(&password))
            }
            Command::HashPassword { password, .. } => Event::PasswordHash(hash_of(&password)),
            Command::StorePasswordHash { user_id, password_hash } => {
                for (id, hash) in self.credentials.values_mut() {
                    if *id == user_id.0 {
                        *hash = password_hash.clone();
                    }
                }
                Event::Done
            }
            Command::ReadSessionUser => Event::SessionUser(self.user().map(UserId)),
            Command::RenewSession => {
                let attributes = self.sessions.remove(&self.session).flatten();
                self.session = self.unused_session;
                self.unused_session += 1;
                self.sessions.insert(self.session, attributes);
                Event::Done
            }
            Command::InsertSessionUser { user_id } => {
                self.sessions.insert(self.session, Some(user_id.0));
                Event::Done
            }
            Command::DestroySession => {
                self.sessions.remove(&self.session);
                Event::Done
            }
        }
    }

    fn post_subscriptions(&mut self, name: &str, email: &str) -> Response {
        let form = FormData { email: email.to_string(), name: name.to_string() };
        let (mut state, mut step) = subscribe(form, "http://127.0.0.1");
        loop {
            match step {
                Step::Respond(response) => return response,
                Step::Call(command) => {
                    let event = self.perform(command);
                    (state, step) = state.advance(event);
                }
            }
        }
    }

    fn get_confirm(&mut self, token: &str) -> Response {
        let (mut state, mut step) =
            confirm(Parameters { subscription_token: token.to_string() });
        loop {
            match step {
                Step::Respond(response) => return response,
                Step::Call(command) => {
                    let event = self.perform(command);
                    (state, step) = state.advance(event);
                }
            }
        }
    }

    fn validate(&mut self, username: &str, password: &str) -> Result<UserId, AuthError> {
        let (mut state, command) = validate_credentials(Credentials {
            username: username.to_string(),
            password: password.to_string(),
        });
        let mut step = AuthStep::Call(command);
        loop {
            match step {
                AuthStep::Done(outcome) => return outcome,
                AuthStep::Call(command) => {
                    let event = self.perform(command);
                    (state, step) = state.advance(event);
                }
            }
        }
    }

    fn post_login(&mut self, username: &str, password: &str) -> Response {
        let (mut state, mut step) = login(newsletter::routes::login::FormData {
            username: username.to_string(),
            password: password.to_string(),
        });
        loop {
            match step {
                Step::Respond(response) => return response,
                Step::Call(command) => {
                    let event = self.perform(command);
                    (state, step) = state.advance(event);
                }
            }
        }
    }

    fn post_change_password(&mut self, current: &str, new: &str, check: &str) -> Response {
        let (mut state, mut step) = change_password(newsletter::routes::admin::password::FormData {
            current_password: current.to_string(),
            new_password: new.to_string(),
            new_password_check: check.to_string(),
        });
        loop {
            match step {
                Step::Respond(response) => return response,
                Step::Call(command) => {
                    let event = self.perform(command);
                    (state, step) = state.advance(event);
                }
            }
        }
    }

    fn get_change_password(&mut self) -> Response {
        let (mut state, mut step) = change_password_form();
        loop {
            match step {
                Step::Respond(response) => return response,
                Step::Call(command) => {
                    let event = self.perform(command);
                    (state, step) = state.advance(event);
                }
            }
        }
    }

    fn get_admin_dashboard(&mut self) -> Response {
        let (mut state, mut step) = admin_dashboard();
        loop {
            match step {
                Step::Respond(response) => return response,
                Step::Call(command) => {
                    let event = self.perform(command);
                    (state, step) = state.advance(event);
                }
            }
        }
    }

    fn post_logout(&mut self) -> Response {
        let (mut state, mut step) = log_out();
        loop {
            match step {
                Step::Respond(response) => return response,
                Step::Call(command) => {
                    let event = self.perform(command);
                    (state, step) = state.advance(event);
                }
            }
        }
    }
}

fn status(code: StatusCode) -> Response {
    Response { reply: Reply::Status(code), report: None }
}

fn redirect(to: Location, level: Level, message: &str) -> Reply {
    Reply::Redirect { to, flash: Some(Flash { level, message: message.to_string() }) }
}

fn token_in(link_text: &str) -> String {
    let marker = "subscription_token=";
    let start = link_text.find(marker).unwrap() + marker.len();
    link_text[start..].chars().take_while(|c| c.is_ascii_alphanumeric()).collect()
}

const ADMIN: u128 = 0x1234;

// Subscribing.

#[test]
fn subscribe_returns_a_200_for_valid_form_data() {
    let mut world = World::new();
    let response = world.post_subscriptions("Ursula Le Guin", "ursula@example.com");
    assert_eq!(response, status(StatusCode::Success));
}

#[test]
fn subscribe_persists_the_new_subscriber() {
    let mut world = World::new();
    world.post_subscriptions("Ursula Le Guin", "ursula@example.com");
    assert_eq!(world.repository.subscribers.len(), 1);
    let saved = world.repository.subscribers.values().next().unwrap();
    assert_eq!(saved.email, "ursula@example.com");
    assert_eq!(saved.name, "Ursula Le Guin");
    assert_eq!(saved.status, SubscriptionStatus::PendingConfirmation);
    assert!(world.transaction.is_none());
}

#[test]
fn subscribe_stores_exactly_one_token_that_resolves_to_the_subscriber() {
    let mut world = World::new();
    world.post_subscriptions("Ursula Le Guin", "ursula@example.com");
    assert_eq!(world.repository.tokens.len(), 1);
    let (token, id) = world.repository.tokens.iter().next().unwrap();
    assert!(is_valid_token(token));
    assert!(world.repository.subscribers.contains_key(id));
}

#[test]
fn subscribe_makes_its_calls_in_order() {
    let mut world = World::new();
    world.post_subscriptions("Ursula Le Guin", "ursula@example.com");
    assert_eq!(world.log.len(), 5);
    assert!(matches!(world.log[0], Command::BeginTransaction));
    assert!(matches!(world.log[1], Command::InsertSubscriber { .. }));
    assert!(matches!(world.log[2], Command::StoreToken { .. }));
    assert!(matches!(world.log[3], Command::Commit));
    assert!(matches!(world.log[4], Command::SendEmail { .. }));
}

#[test]
fn subscribe_sends_a_confirmation_email_with_a_link() {
    let mut world = World::new();
    world.post_subscriptions("Ursula Le Guin", "ursula@example.com");
    assert_eq!(world.outbox.len(), 1);
    let sent = &world.outbox[0];
    let token = world.repository.tokens.keys().next().unwrap();
    let link = format!("http://127.0.0.1/subscriptions/confirm?subscription_token={token}");
    assert_eq!(sent.recipient, "ursula@example.com");
    assert_eq!(sent.subject, "Welcome!");
    assert_eq!(
        sent.text_body,
        format!("Welcome to our newsletter!\nVisit {link} to confirm your subscription.")
    );
    assert_eq!(
        sent.html_body,
        format!(
            "Welcome to our newsletter!<br />Click <a href=\"{link}\">here</a> to confirm your subscription."
        )
    );
    assert_eq!(token_in(&sent.html_body), token_in(&sent.text_body));
    assert_eq!(token_in(&sent.text_body).len(), 25);
}

#[test]
fn subscribe_with_given_identity_and_token_uses_them() {
    let form = FormData { email: "ursula@example.com".to_string(), name: "Ursula".to_string() };
    let token = "abcdefghijklmnopqrstuvwxy".to_string();
    let (state, step) = subscribe_with(form, "https://news.example", SubscriberId(7), token);
    assert_eq!(step, Step::Call(Command::BeginTransaction));
    let (state, step) = state.advance(Event::Done);
    assert_eq!(
        step,
        Step::Call(Command::InsertSubscriber {
            id: SubscriberId(7),
            email: "ursula@example.com".to_string(),
            name: "Ursula".to_string(),
            status: SubscriptionStatus::PendingConfirmation,
        })
    );
    let (state, step) = state.advance(Event::Done);
    assert_eq!(
        step,
        Step::Call(Command::StoreToken {
            subscriber_id: SubscriberId(7),
            subscription_token: "abcdefghijklmnopqrstuvwxy".to_string(),
        })
    );
    let (state, step) = state.advance(Event::Done);
    assert_eq!(step, Step::Call(Command::Commit));
    let (state, step) = state.advance(Event::Done);
    let link =
        "https://news.example/subscriptions/confirm?subscription_token=abcdefghijklmnopqrstuvwxy";
    assert_eq!(
        step,
        Step::Call(Command::SendEmail {
            recipient: "ursula@example.com".to_string(),
            subject: "Welcome!".to_string(),
            html_body: format!(
                "Welcome to our newsletter!<br />Click <a href=\"{link}\">here</a> to confirm your subscription."
            ),
            text_body: format!(
                "Welcome to our newsletter!\nVisit {link} to confirm your subscription."
            ),
        })
    );
    let (_, step) = state.advance(Event::Done);
    assert_eq!(step, Step::Respond(status(StatusCode::Success)));
}

#[test]
fn subscribe_returns_a_400_when_fields_are_present_but_invalid() {
    let cases = [
        ("", "ursula@example.com", " is not a valid subscriber name."),
        ("   ", "ursula@example.com", "    is not a valid subscriber name."),
        ("Ursula", "", " is not a valid subscriber email."),
        ("Ursula", "definitely-not-an-email", "definitely-not-an-email is not a valid subscriber email."),
        ("Ursula<", "ursula@example.com", "Ursula< is not a valid subscriber name."),
    ];
    for (name, email, reason) in cases {
        let mut world = World::new();
        let response = world.post_subscriptions(name, email);
        assert_eq!(
            response,
            Response { reply: Reply::Invalid(reason.to_string()), report: None },
            "{name:?} {email:?}"
        );
        assert!(world.log.is_empty());
        assert_eq!(world.repository, Repository::default());
        assert!(world.outbox.is_empty());
    }
}

#[test]
fn subscribe_rejects_a_name_that_is_too_long_without_touching_the_repository() {
    let mut world = World::new();
    let name = "a".repeat(257);
    let response = world.post_subscriptions(&name, "ursula@example.com");
    assert!(matches!(response.reply, Reply::Invalid(_)));
    assert!(world.log.is_empty());
    assert!(world.repository.subscribers.is_empty());
}

#[test]
fn subscribe_fails_if_there_is_a_fatal_database_error() {
    for failing in 1..=4 {
        let mut world = World::new();
        world.failing = Some(failing);
        let response = world.post_subscriptions("Ursula Le Guin", "ursula@example.com");
        assert_eq!(response.reply, Reply::Status(StatusCode::InternalServerError));
        let report = response.report.unwrap();
        if failing == 3 {
            assert_eq!(
                report,
                "A database error was encountered while trying to store a subscription token: connection reset"
            );
        } else {
            assert_eq!(report, "A database error was encountered: connection reset");
        }
        // Nothing is called after the failure, and nothing was committed.
        assert_eq!(world.log.len(), failing);
        assert_eq!(world.repository, Repository::default());
        assert!(world.outbox.is_empty());
    }
}

#[test]
fn subscribe_keeps_the_subscriber_when_the_email_cannot_be_sent() {
    let mut world = World::new();
    world.failing = Some(5);
    let response = world.post_subscriptions("Ursula Le Guin", "ursula@example.com");
    assert_eq!(response.reply, Reply::Status(StatusCode::InternalServerError));
    assert_eq!(
        response.report.unwrap(),
        "An http client error was encountered: connection reset"
    );
    assert_eq!(world.repository.subscribers.len(), 1);
    let saved = world.repository.subscribers.values().next().unwrap();
    assert_eq!(saved.status, SubscriptionStatus::PendingConfirmation);
    // The token that was stored is still good for confirming.
    let token = world.repository.tokens.keys().next().unwrap().clone();
    world.failing = None;
    assert_eq!(world.get_confirm(&token), status(StatusCode::Success));
}

#[test]
fn subscribing_twice_with_one_address_fails_the_second_time() {
    let mut world = World::new();
    assert_eq!(world.post_subscriptions("Ursula", "ursula@example.com"), status(StatusCode::Success));
    let response = world.post_subscriptions("Ursula again", "ursula@example.com");
    assert_eq!(response.reply, Reply::Status(StatusCode::InternalServerError));
    assert_eq!(world.repository.subscribers.len(), 1);
    assert_eq!(world.repository.tokens.len(), 1);
    assert_eq!(world.outbox.len(), 1);
}

#[test]
fn a_subscription_that_is_over_answers_with_a_fault() {
    let form = FormData { email: "nope".to_string(), name: "Ursula".to_string() };
    let (state, step) = subscribe(form, "http://127.0.0.1");
    assert!(matches!(step, Step::Respond(_)));
    let (_, step) = state.advance(Event::Done);
    match step {
        Step::Respond(response) => {
            assert_eq!(response.reply, Reply::Status(StatusCode::InternalServerError))
        }
        Step::Call(command) => panic!("{command:?}"),
    }
}

#[test]
fn a_reply_of_the_wrong_kind_is_a_fault() {
    let form = FormData { email: "ursula@example.com".to_string(), name: "Ursula".to_string() };
    let (state, _) = subscribe(form, "http://127.0.0.1");
    let (_, step) = state.advance(Event::PasswordVerdict(true));
    match step {
        Step::Respond(response) => {
            assert_eq!(response.reply, Reply::Status(StatusCode::InternalServerError));
            assert_eq!(
                response.report.unwrap(),
                "A database error was encountered: unexpected reply"
            );
        }
        Step::Call(command) => panic!("{command:?}"),
    }
}

// Confirming.

#[test]
fn the_link_returned_by_subscribe_returns_a_200_if_called() {
    let mut world = World::new();
    world.post_subscriptions("Ursula Le Guin", "ursula@example.com");
    let token = token_in(&world.outbox[0].text_body);
    assert_eq!(world.get_confirm(&token), status(StatusCode::Success));
}

#[test]
fn clicking_on_the_confirmation_link_confirms_a_subscriber() {
    let mut world = World::new();
    assert_eq!(
        world.post_subscriptions("Ursula Le Guin", "ursula@example.com"),
        status(StatusCode::Success)
    );
    assert_eq!(world.repository.subscribers.len(), 1);
    assert_eq!(world.outbox.len(), 1);
    let token = token_in(&world.outbox[0].html_body);
    assert_eq!(token.len(), 25);

    assert_eq!(world.get_confirm(&token), status(StatusCode::Success));
    let saved = world.repository.subscribers.values().next().unwrap().clone();
    assert_eq!(saved.email, "ursula@example.com");
    assert_eq!(saved.name, "Ursula Le Guin");
    assert_eq!(saved.status, SubscriptionStatus::Confirmed);

    assert_eq!(world.get_confirm(&token), status(StatusCode::Success));
    let again = world.repository.subscribers.values().next().unwrap().clone();
    assert_eq!(again, saved);
}

#[test]
fn confirmations_with_an_unknown_token_are_rejected_with_a_401() {
    let mut world = World::new();
    world.post_subscriptions("Ursula Le Guin", "ursula@example.com");
    let before = world.repository.clone();
    let response = world.get_confirm("abcdefghijklmnopqrstuvwxy");
    assert_eq!(response, status(StatusCode::Unauthorized));
    assert_eq!(world.repository, before);
    assert_eq!(world.log.len(), 6);
    assert!(matches!(world.log[5], Command::ResolveToken { .. }));
}

#[test]
fn confirm_fails_if_the_repository_fails() {
    for failing in 1..=2 {
        let (state, step) =
            confirm(Parameters { subscription_token: "abcdefghijklmnopqrstuvwxy".to_string() });
        assert_eq!(
            step,
            Step::Call(Command::ResolveToken {
                subscription_token: "abcdefghijklmnopqrstuvwxy".to_string()
            })
        );
        let (state, step) = if failing == 1 {
            state.advance(Event::Failed("pool timed out".to_string()))
        } else {
            let (state, step) = state.advance(Event::Subscriber(Some(SubscriberId(3))));
            assert_eq!(step, Step::Call(Command::ConfirmSubscriber { id: SubscriberId(3) }));
            state.advance(Event::Failed("pool timed out".to_string()))
        };
        assert_eq!(
            step,
            Step::Respond(Response {
                reply: Reply::Status(StatusCode::InternalServerError),
                report: Some("Internal server error: pool timed out".to_string()),
            })
        );
        let (_, step) = state.advance(Event::Done);
        assert!(matches!(step, Step::Respond(_)));
    }
}

// Validating credentials.

#[test]
fn valid_credentials_give_the_user() {
    let mut world = World::with_admin(ADMIN, "admin", "everythinghastostartsomewhere");
    assert_eq!(world.validate("admin", "everythinghastostartsomewhere"), Ok(UserId(ADMIN)));
    assert_eq!(world.verifications, 1);
}

#[test]
fn a_wrong_password_and_an_unknown_username_both_verify_one_password() {
    let mut world = World::with_admin(ADMIN, "admin", "everythinghastostartsomewhere");
    let wrong = world.validate("admin", "guess");
    assert_eq!(wrong, Err(AuthError::InvalidCredentials("Invalid password.".to_string())));
    assert_eq!(world.verifications, 1);
    assert_eq!(world.log.len(), 2);

    let unknown = world.validate("nobody", "guess");
    assert!(matches!(unknown, Err(AuthError::InvalidCredentials(_))));
    assert_eq!(world.verifications, 2);
    assert_eq!(world.log.len(), 4);
    assert_eq!(
        world.log[3],
        Command::VerifyPassword {
            expected_hash: FALLBACK_PASSWORD_HASH.to_string(),
            password: "guess".to_string(),
        }
    );
    assert_eq!(wrong.unwrap_err().message(), unknown.unwrap_err().message());
}

#[test]
fn an_unknown_username_is_refused_even_if_the_fallback_hash_verifies() {
    let (state, _) = validate_credentials(Credentials {
        username: "nobody".to_string(),
        password: "guess".to_string(),
    });
    let (state, step) = state.advance(Event::Credentials(None));
    assert!(matches!(step, AuthStep::Call(Command::VerifyPassword { .. })));
    let (_, step) = state.advance(Event::PasswordVerdict(true));
    assert_eq!(
        step,
        AuthStep::Done(Err(AuthError::InvalidCredentials("Unknown username.".to_string())))
    );
}

#[test]
fn a_failing_store_or_hasher_is_an_unexpected_error() {
    let credentials =
        Credentials { username: "admin".to_string(), password: "guess".to_string() };
    let (state, command) = validate_credentials(credentials.clone());
    assert_eq!(command, Command::FetchCredentials { username: "admin".to_string() });
    let (_, step) = state.advance(Event::Failed("pool timed out".to_string()));
    assert_eq!(
        step,
        AuthStep::Done(Err(AuthError::UnexpectedError(
            "Failed to perform a query to retrieve stored credentials: pool timed out".to_string()
        )))
    );

    let (state, _) = validate_credentials(credentials);
    let (state, _) = state.advance(Event::Credentials(Some(StoredCredentials {
        user_id: UserId(ADMIN),
        password_hash: "not a hash".to_string(),
    })));
    let (_, step) = state.advance(Event::Failed("malformed hash".to_string()));
    match step {
        AuthStep::Done(Err(error)) => {
            assert_eq!(
                error,
                AuthError::UnexpectedError(
                    "Failed to verify the password hash: malformed hash".to_string()
                )
            );
            assert_eq!(error.message(), "Failed to verify the password hash: malformed hash");
        }
        other => panic!("{other:?}"),
    }
}

// Logging in.

#[test]
fn an_error_flash_message_is_set_on_failure() {
    let mut world = World::with_admin(ADMIN, "admin", "everythinghastostartsomewhere");
    let response = world.post_login("random-username", "random-password");
    assert_eq!(response.reply, redirect(Location::Login, Level::Error, "Authentication failed"));
    // The fallback hash does not verify the password, which is what the log says.
    assert_eq!(response.report.unwrap(), "Authentication failed: Invalid password.");
    assert_eq!(world.user(), None);
    assert_eq!(world.session, 1);
}

#[test]
fn redirect_to_admin_dashboard_after_login_success() {
    let mut world = World::with_admin(ADMIN, "admin", "everythinghastostartsomewhere");
    let response = world.post_login("admin", "everythinghastostartsomewhere");
    assert_eq!(
        response,
        Response {
            reply: Reply::Redirect { to: Location::AdminDashboard, flash: None },
            report: None
        }
    );
    let page = world.get_admin_dashboard();
    assert_eq!(
        page,
        Response {
            reply: Reply::Page(Page::AdminDashboard { username: "admin".to_string() }),
            report: None
        }
    );
}

#[test]
fn a_successful_login_rotates_the_session() {
    let mut world = World::with_admin(ADMIN, "admin", "everythinghastostartsomewhere");
    let before = world.session;
    world.post_login("admin", "everythinghastostartsomewhere");
    assert_ne!(world.session, before);
    assert!(!world.sessions.contains_key(&before));
    assert_eq!(world.user(), Some(ADMIN));
    let calls: Vec<&Command> = world.log.iter().skip(2).collect();
    assert_eq!(
        calls,
        vec![&Command::RenewSession, &Command::InsertSessionUser { user_id: UserId(ADMIN) }]
    );
}

#[test]
fn three_wrong_passwords_then_the_right_one() {
    let mut world = World::with_admin(ADMIN, "admin", "everythinghastostartsomewhere");
    let before = world.session;
    for guess in ["a", "b", "c"] {
        let response = world.post_login("admin", guess);
        assert_eq!(
            response.reply,
            redirect(Location::Login, Level::Error, "Authentication failed")
        );
        assert_eq!(world.session, before);
        assert_eq!(world.user(), None);
        assert_eq!(
            world.get_admin_dashboard().reply,
            Reply::Redirect { to: Location::Login, flash: None }
        );
    }
    let response = world.post_login("admin", "everythinghastostartsomewhere");
    assert_eq!(response.reply, Reply::Redirect { to: Location::AdminDashboard, flash: None });
    assert_ne!(world.session, before);
    assert_eq!(world.verifications, 4);
    assert!(matches!(world.get_admin_dashboard().reply, Reply::Page(_)));
    assert!(matches!(world.get_change_password().reply, Reply::Page(Page::ChangePasswordForm)));
}

#[test]
fn login_reports_a_fault_as_something_that_went_wrong() {
    for failing in 1..=4 {
        let mut world = World::with_admin(ADMIN, "admin", "everythinghastostartsomewhere");
        world.failing = Some(failing);
        let response = world.post_login("admin", "everythinghastostartsomewhere");
        assert_eq!(
            response.reply,
            redirect(Location::Login, Level::Error, "Something went wrong")
        );
        assert!(response.report.unwrap().starts_with("Something went wrong: "));
        assert_eq!(world.log.len(), failing);
        assert_eq!(world.user(), None);
    }
}

// The dashboard, logging out, changing the password.

#[test]
fn you_must_be_logged_in_to_access_the_admin_dashboard() {
    let mut world = World::with_admin(ADMIN, "admin", "everythinghastostartsomewhere");
    let response = world.get_admin_dashboard();
    assert_eq!(
        response,
        Response { reply: Reply::Redirect { to: Location::Login, flash: None }, report: None }
    );
    assert_eq!(world.log, vec![Command::ReadSessionUser]);
}

#[test]
fn the_dashboard_fails_if_the_user_cannot_be_found() {
    let mut world = World::new();
    world.sessions.insert(1, Some(77));
    let response = world.get_admin_dashboard();
    assert_eq!(
        response,
        Response {
            reply: Reply::Status(StatusCode::InternalServerError),
            report: Some("Internal server error: no rows returned".to_string()),
        }
    );
}

#[test]
fn logout_clears_session_state() {
    let mut world = World::with_admin(ADMIN, "admin", "everythinghastostartsomewhere");
    world.post_login("admin", "everythinghastostartsomewhere");
    assert!(matches!(world.get_admin_dashboard().reply, Reply::Page(_)));
    let session = world.session;

    let response = world.post_logout();
    assert_eq!(
        response,
        Response {
            reply: redirect(Location::Login, Level::Info, "You have successfully logged out."),
            report: None,
        }
    );
    assert!(!world.sessions.contains_key(&session));
    assert_eq!(
        world.get_admin_dashboard().reply,
        Reply::Redirect { to: Location::Login, flash: None }
    );
}

#[test]
fn logging_out_without_being_logged_in_changes_nothing() {
    let mut world = World::new();
    let response = world.post_logout();
    assert_eq!(
        response,
        Response { reply: Reply::Redirect { to: Location::Login, flash: None }, report: None }
    );
    assert_eq!(world.log, vec![Command::ReadSessionUser]);
    assert!(world.sessions.contains_key(&1));
}

#[test]
fn logout_fails_if_the_session_store_fails() {
    for failing in 1..=2 {
        let mut world = World::new();
        world.sessions.insert(1, Some(ADMIN));
        world.failing = Some(failing);
        let response = world.post_logout();
        assert_eq!(response.reply, Reply::Status(StatusCode::InternalServerError));
        assert_eq!(response.report.unwrap(), "Internal server error: connection reset");
    }
}

#[test]
fn you_must_be_logged_in_to_see_the_change_password_form() {
    let mut world = World::new();
    assert_eq!(
        world.get_change_password().reply,
        Reply::Redirect { to: Location::Login, flash: None }
    );
    world.failing = Some(2);
    assert_eq!(
        world.get_change_password().reply,
        Reply::Status(StatusCode::InternalServerError)
    );
}

#[test]
fn you_must_be_logged_in_to_change_your_password() {
    let mut world = World::with_admin(ADMIN, "admin", "everythinghastostartsomewhere");
    let response = world.post_change_password("everythinghastostartsomewhere", "new", "new");
    assert_eq!(response.reply, Reply::Redirect { to: Location::Login, flash: None });
    assert_eq!(world.log, vec![Command::ReadSessionUser]);
    assert_eq!(world.credentials["admin"].1, hash_of("everythinghastostartsomewhere"));
}

#[test]
fn new_password_fields_must_match() {
    let mut world = World::with_admin(ADMIN, "admin", "everythinghastostartsomewhere");
    world.post_login("admin", "everythinghastostartsomewhere");
    let calls = world.log.len();
    let response =
        world.post_change_password("everythinghastostartsomewhere", "new", "another");
    assert_eq!(
        response,
        Response {
            reply: redirect(
                Location::AdminPassword,
                Level::Error,
                "You entered two different new passwords - the field values must match."
            ),
            report: None,
        }
    );
    assert_eq!(world.log.len(), calls + 1);
    assert_eq!(world.credentials["admin"].1, hash_of("everythinghastostartsomewhere"));
}

#[test]
fn current_password_must_be_valid() {
    let mut world = World::with_admin(ADMIN, "admin", "everythinghastostartsomewhere");
    world.post_login("admin", "everythinghastostartsomewhere");
    let response = world.post_change_password("wrong", "new", "new");
    assert_eq!(
        response,
        Response {
            reply: redirect(
                Location::AdminPassword,
                Level::Error,
                "The current password is incorrect."
            ),
            report: None,
        }
    );
    assert_eq!(world.credentials["admin"].1, hash_of("everythinghastostartsomewhere"));
    assert!(!world.log.iter().any(|c| matches!(c, Command::HashPassword { .. })));
    assert!(!world.log.iter().any(|c| matches!(c, Command::StorePasswordHash { .. })));
}

#[test]
fn changing_password_works() {
    let mut world = World::with_admin(ADMIN, "admin", "everythinghastostartsomewhere");
    world.post_login("admin", "everythinghastostartsomewhere");
    let response = world.post_change_password("everythinghastostartsomewhere", "new", "new");
    assert_eq!(
        response,
        Response {
            reply: redirect(
                Location::AdminPassword,
                Level::Error,
                "Your password has been changed."
            ),
            report: None,
        }
    );
    assert_eq!(world.credentials["admin"], (ADMIN, hash_of("new")));

    world.post_logout();
    world.sessions.insert(world.session, None);
    assert!(matches!(
        world.validate("admin", "everythinghastostartsomewhere"),
        Err(AuthError::InvalidCredentials(_))
    ));
    assert_eq!(world.validate("admin", "new"), Ok(UserId(ADMIN)));
    let response = world.post_login("admin", "new");
    assert_eq!(response.reply, Reply::Redirect { to: Location::AdminDashboard, flash: None });
}

#[test]
fn changing_password_makes_its_calls_in_order() {
    let mut world = World::with_admin(ADMIN, "admin", "old");
    world.sessions.insert(1, Some(ADMIN));
    world.post_change_password("old", "new", "new");
    assert_eq!(
        world.log,
        vec![
            Command::ReadSessionUser,
            Command::FetchUsername { user_id: UserId(ADMIN) },
            Command::FetchCredentials { username: "admin".to_string() },
            Command::VerifyPassword {
                expected_hash: hash_of("old"),
                password: "old".to_string()
            },
            Command::HashPassword {
                password: "new".to_string(),
                params: HashParams { memory_kib: 15000, iterations: 2, parallelism: 1 },
            },
            Command::StorePasswordHash { user_id: UserId(ADMIN), password_hash: hash_of("new") },
        ]
    );
}

#[test]
fn changing_password_fails_if_a_call_fails() {
    for failing in 1..=6 {
        let mut world = World::with_admin(ADMIN, "admin", "old");
        world.sessions.insert(1, Some(ADMIN));
        world.failing = Some(failing);
        let response = world.post_change_password("old", "new", "new");
        assert_eq!(response.reply, Reply::Status(StatusCode::InternalServerError), "{failing}");
        assert!(response.report.unwrap().starts_with("Internal server error: "));
        assert_eq!(world.log.len(), failing);
        assert_eq!(world.credentials["admin"], (ADMIN, hash_of("old")));
    }
}
