//! What the workflows achieve, proved of every input: each law drives a
//! workflow against the model of its collaborators and states what the world
//! looks like afterwards.

use crate::authentication::{
    AuthErrorView, AuthStepView, CredentialsView, ValidationView, FALLBACK_PASSWORD_HASH,
};
use crate::domain::NewSubscriberView;
use crate::error::ErrorView;
use crate::model::{Repository, SubscriberRecord, World};
use crate::protocol::{
    CommandView, FlashView, Level, Location, PageView, ReplyView, ResponseView, StatusCode,
    StepView, SubscriberId, SubscriptionStatus, UserId,
};
use crate::routes::admin::dashboard::{to_login, Dashboard};
use crate::routes::admin::logout::{logged_out_message, Logout};
use crate::routes::admin::password::{
    back_to_form, changed_message, incorrect_message, mismatch_message, PasswordChangeView,
    PasswordForm,
};
use crate::routes::login::LoginView;
use crate::routes::subscriptions::{
    FormDataView, spec_send_confirmation_email, spec_subscribe, valid_name,
};
use crate::routes::subscriptions_confirm::Confirmation;
use crate::utils::spec_plain;
use vstd::prelude::*;

verus! {

/// Subscribing with a valid form leaves one pending subscriber with one
/// token.
///
/// Take a repository that holds neither the form's address nor the identity
/// and the token that the subscription draws. Once the subscription has run,
/// the visitor is answered with status 200, the repository holds the
/// subscriber under that identity, with the form's address and name and
/// pending confirmation, exactly one token resolves to the subscriber, which
/// is the one drawn, and one email has been sent, to the form's address, with
/// the link that holds the token. No transaction is left open.
pub proof fn subscription_leaves_one_pending_subscriber(
    world: World,
    form: FormDataView,
    base_url: Seq<char>,
    subscriber_id: SubscriberId,
    subscription_token: Seq<char>,
)
    requires
        form.is_valid(),
        world.repository.well_formed(),
        !world.repository.subscribers.contains_key(subscriber_id),
        !world.repository.has_email(form.email),
        !world.repository.tokens.contains_key(subscription_token),
    ensures
        ({
            let (state, step) = spec_subscribe(form, base_url, subscriber_id, subscription_token);
            let (after, response) = world.run_subscription(state, step, 5);
            &&& response == Some(spec_plain(ReplyView::Status(StatusCode::Success)))
            &&& after.repository.well_formed()
            &&& after.transaction is None
            &&& after.repository.subscribers == world.repository.subscribers.insert(
                subscriber_id,
                SubscriberRecord {
                    email: form.email,
                    name: form.name,
                    status: SubscriptionStatus::PendingConfirmation,
                },
            )
            &&& forall|token: Seq<char>|
                after.repository.resolves_to(token, subscriber_id) <==> token
                    == subscription_token
            &&& after.outbox.len() == world.outbox.len() + 1
            &&& after.outbox.last().recipient == form.email
            &&& spec_send_confirmation_email(
                NewSubscriberView { email: form.email, name: form.name },
                base_url,
                subscription_token,
            ) == (CommandView::SendEmail {
                recipient: after.outbox.last().recipient,
                subject: after.outbox.last().subject,
                html_body: after.outbox.last().html_body,
                text_body: after.outbox.last().text_body,
            })
        }),
{
    reveal_with_fuel(World::run_subscription, 6);
    let (state, step) = spec_subscribe(form, base_url, subscriber_id, subscription_token);
    let (w1, e1) = world.perform(CommandView::BeginTransaction);
    let (s1, t1) = state.advance(e1);
    let (w2, e2) = w1.perform(t1->Call_0);
    let (s2, t2) = s1.advance(e2);
    let (w3, e3) = w2.perform(t2->Call_0);
    let (s3, t3) = s2.advance(e3);
    let (w4, e4) = w3.perform(t3->Call_0);
    let (s4, t4) = s3.advance(e4);
    let (w5, e5) = w4.perform(t4->Call_0);
    let (s5, t5) = s4.advance(e5);
    assert(e2 is Done);
    assert(e3 is Done);
    assert(e4 is Done);
    assert(e5 is Done);
    assert(world.run_subscription(state, step, 5) == (w5, Some(t5->Respond_0)));
    assert(w5.repository.tokens == world.repository.tokens.insert(
        subscription_token,
        subscriber_id,
    ));
    assert forall|token: Seq<char>|
        w5.repository.resolves_to(token, subscriber_id) <==> token == subscription_token by {
        if token != subscription_token && world.repository.tokens.contains_key(token) {
            assert(world.repository.subscribers.contains_key(world.repository.tokens[token]));
        }
    }
}

/// A subscription shows in the repository as a whole or not at all.
///
/// Take any world, and let any of the calls of a subscription fail. The
/// repository then either is as it was, or holds the new subscriber, pending
/// confirmation, together with the token: never the one without the other.
/// An email is sent only once both are committed, and the visitor is answered
/// with status 200 only if the email was sent; every other answer to a valid
/// form is a bare status 500.
pub proof fn subscription_is_all_or_nothing(
    world: World,
    form: FormDataView,
    base_url: Seq<char>,
    subscriber_id: SubscriberId,
    subscription_token: Seq<char>,
    faults: Seq<bool>,
)
    requires
        form.is_valid(),
    ensures
        ({
            let (state, step) = spec_subscribe(form, base_url, subscriber_id, subscription_token);
            let (after, response) = world.run_subscription_with_faults(state, step, 5, faults);
            let committed = Repository {
                subscribers: world.repository.subscribers.insert(
                    subscriber_id,
                    SubscriberRecord {
                        email: form.email,
                        name: form.name,
                        status: SubscriptionStatus::PendingConfirmation,
                    },
                ),
                tokens: world.repository.tokens.insert(subscription_token, subscriber_id),
            };
            let sent = after.outbox.len() == world.outbox.len() + 1;
            &&& after.repository == world.repository || after.repository == committed
            &&& after.outbox == world.outbox || sent
            &&& sent ==> after.repository == committed
            &&& response matches Some(answer)
            &&& answer.reply == ReplyView::Status(
                if sent {
                    StatusCode::Success
                } else {
                    StatusCode::InternalServerError
                },
            )
        }),
{
    reveal_with_fuel(World::run_subscription_with_faults, 6);
    let (state, step) = spec_subscribe(form, base_url, subscriber_id, subscription_token);
    let f0 = faults;
    let f1 = if f0.len() > 0 { f0.drop_first() } else { f0 };
    let f2 = if f1.len() > 0 { f1.drop_first() } else { f1 };
    let f3 = if f2.len() > 0 { f2.drop_first() } else { f2 };
    let f4 = if f3.len() > 0 { f3.drop_first() } else { f3 };
    let fault0 = f0.len() > 0 && f0[0];
    let fault1 = f1.len() > 0 && f1[0];
    let fault2 = f2.len() > 0 && f2[0];
    let fault3 = f3.len() > 0 && f3[0];
    let fault4 = f4.len() > 0 && f4[0];
    let (after, response) = world.run_subscription_with_faults(state, step, 5, faults);
    if !fault0 {
        let (w1, e1) = world.perform(CommandView::BeginTransaction);
        let (s1, t1) = state.advance(e1);
        assert(w1.repository == world.repository);
        if !fault1 {
            let (w2, e2) = w1.perform(t1->Call_0);
            let (s2, t2) = s1.advance(e2);
            assert(w2.repository == world.repository);
            if e2 is Done && !fault2 {
                let (w3, e3) = w2.perform(t2->Call_0);
                let (s3, t3) = s2.advance(e3);
                assert(w3.repository == world.repository);
                if e3 is Done && !fault3 {
                    let (w4, e4) = w3.perform(t3->Call_0);
                    let (s4, t4) = s3.advance(e4);
                    assert(e4 is Done);
                    assert(w4.repository.subscribers =~= world.repository.subscribers.insert(
                        subscriber_id,
                        SubscriberRecord {
                            email: form.email,
                            name: form.name,
                            status: SubscriptionStatus::PendingConfirmation,
                        },
                    ));
                    assert(w4.repository.tokens =~= world.repository.tokens.insert(
                        subscription_token,
                        subscriber_id,
                    ));
                    assert(w4.outbox == world.outbox);
                }
            }
        }
    }
}

/// The link that a new subscriber is sent confirms the subscription.
///
/// After a subscription as in
/// [`subscription_leaves_one_pending_subscriber`], following the link with
/// the token that was drawn is answered with status 200 and leaves that
/// subscriber confirmed, with the address and the name of the form.
pub proof fn the_link_confirms_the_new_subscriber(
    world: World,
    form: FormDataView,
    base_url: Seq<char>,
    subscriber_id: SubscriberId,
    subscription_token: Seq<char>,
)
    requires
        form.is_valid(),
        world.repository.well_formed(),
        !world.repository.subscribers.contains_key(subscriber_id),
        !world.repository.has_email(form.email),
        !world.repository.tokens.contains_key(subscription_token),
    ensures
        ({
            let (state, step) = spec_subscribe(form, base_url, subscriber_id, subscription_token);
            let (subscribed, _) = world.run_subscription(state, step, 5);
            let (confirmed, response) = subscribed.run_confirmation(
                Confirmation::Resolving,
                StepView::Call(CommandView::ResolveToken { subscription_token }),
                2,
            );
            &&& response == Some(spec_plain(ReplyView::Status(StatusCode::Success)))
            &&& confirmed.repository.subscribers[subscriber_id] == SubscriberRecord {
                email: form.email,
                name: form.name,
                status: SubscriptionStatus::Confirmed,
            }
        }),
{
    subscription_leaves_one_pending_subscriber(
        world,
        form,
        base_url,
        subscriber_id,
        subscription_token,
    );
    let (state, step) = spec_subscribe(form, base_url, subscriber_id, subscription_token);
    let (subscribed, _) = world.run_subscription(state, step, 5);
    assert(subscribed.repository.resolves_to(subscription_token, subscriber_id));
    confirming_twice_is_confirming_once(subscribed, subscription_token, subscriber_id);
}

/// A form whose name is not valid is refused, and the repository stays as it
/// was.
///
/// Whatever the world holds, a subscription with a name that is blank, longer
/// than 256 grapheme clusters or holding a forbidden character makes no call
/// at all: it is answered at once with status 400 and the reason, and the
/// world after it is the world before it.
pub proof fn invalid_name_leaves_the_repository_unchanged(
    world: World,
    form: FormDataView,
    base_url: Seq<char>,
    subscriber_id: SubscriberId,
    subscription_token: Seq<char>,
    calls: nat,
)
    requires
        !valid_name(form.name),
    ensures
        ({
            let (state, step) = spec_subscribe(form, base_url, subscriber_id, subscription_token);
            &&& step == StepView::Respond(
                ErrorView::ValidationError(form.refusal()).into_response(),
            )
            &&& step->Respond_0.reply == ReplyView::Invalid(
                crate::domain::invalid_name_message(form.name),
            )
            &&& world.run_subscription(state, step, calls) == (world, Some(step->Respond_0))
        }),
{
    reveal_with_fuel(World::run_subscription, 1);
}

/// A form that is not valid, for whichever reason, makes no call.
pub proof fn invalid_form_makes_no_call(
    world: World,
    form: FormDataView,
    base_url: Seq<char>,
    subscriber_id: SubscriberId,
    subscription_token: Seq<char>,
    calls: nat,
)
    requires
        !form.is_valid(),
    ensures
        ({
            let (state, step) = spec_subscribe(form, base_url, subscriber_id, subscription_token);
            &&& step is Respond
            &&& step->Respond_0.reply == ReplyView::Invalid(form.refusal())
            &&& world.run_subscription(state, step, calls) == (world, Some(step->Respond_0))
        }),
{
    reveal_with_fuel(World::run_subscription, 1);
}

/// Where the repository refuses the subscriber or the token, or the commit
/// is never reached, nothing of the subscription shows: the repository as
/// committed changes only by a commit.
pub proof fn nothing_shows_before_the_commit(world: World, command: CommandView)
    requires
        !(command is Commit),
        !(command is ConfirmSubscriber),
    ensures
        world.perform(command).0.repository == world.repository,
{
}

/// Confirming is idempotent.
///
/// Where a token resolves to a subscriber, following the confirmation link
/// is answered with status 200 and leaves the subscriber confirmed; following
/// it once more is answered with status 200 again and changes nothing.
pub proof fn confirming_twice_is_confirming_once(
    world: World,
    subscription_token: Seq<char>,
    subscriber_id: SubscriberId,
)
    requires
        world.repository.resolves_to(subscription_token, subscriber_id),
        world.repository.subscribers.contains_key(subscriber_id),
    ensures
        ({
            let start = StepView::Call(CommandView::ResolveToken { subscription_token });
            let (once, first) = world.run_confirmation(Confirmation::Resolving, start, 2);
            let (twice, second) = once.run_confirmation(Confirmation::Resolving, start, 2);
            &&& first == Some(spec_plain(ReplyView::Status(StatusCode::Success)))
            &&& second == Some(spec_plain(ReplyView::Status(StatusCode::Success)))
            &&& once.repository.subscribers[subscriber_id].status == SubscriptionStatus::Confirmed
            &&& once.repository.subscribers[subscriber_id].email
                == world.repository.subscribers[subscriber_id].email
            &&& once.repository.subscribers[subscriber_id].name
                == world.repository.subscribers[subscriber_id].name
            &&& twice == once
        }),
{
    reveal_with_fuel(World::run_confirmation, 3);
    let start = StepView::Call(CommandView::ResolveToken { subscription_token });
    let (once, first) = world.run_confirmation(Confirmation::Resolving, start, 2);
    let (twice, second) = once.run_confirmation(Confirmation::Resolving, start, 2);
    assert(once.repository.tokens == world.repository.tokens);
    assert(twice.repository.subscribers =~= once.repository.subscribers);
}

/// A token that was never issued is unauthorized, and no fault.
///
/// Where no subscriber is stored for a token, following the confirmation
/// link is answered with status 401, nothing is reported as a fault, and
/// the world stays as it was.
pub proof fn unknown_token_is_unauthorized(world: World, subscription_token: Seq<char>)
    requires
        !world.repository.tokens.contains_key(subscription_token),
    ensures
        world.run_confirmation(
            Confirmation::Resolving,
            StepView::Call(CommandView::ResolveToken { subscription_token }),
            2,
        ) == (
            world,
            Some(
                ResponseView {
                    reply: ReplyView::Status(StatusCode::Unauthorized),
                    report: None,
                },
            ),
        ),
{
    reveal_with_fuel(World::run_confirmation, 3);
}

/// The first step of a validation of `credentials`.
pub open spec fn validation_of(credentials: CredentialsView) -> (ValidationView, AuthStepView) {
    (
        ValidationView::Looking { password: credentials.password },
        AuthStepView::Call(CommandView::FetchCredentials { username: credentials.username }),
    )
}

/// Whether the world accepts `credentials`: the username is known and the
/// hasher verifies the password against the hash stored for it.
pub open spec fn accepts(world: World, credentials: CredentialsView) -> bool {
    &&& world.credentials.contains_key(credentials.username)
    &&& (world.hasher.verify)(
        world.credentials[credentials.username].password_hash,
        credentials.password,
    )
}

/// Whether a validation ended with `InvalidCredentials`.
pub open spec fn is_refused(outcome: Option<Result<UserId, AuthErrorView>>) -> bool {
    match outcome {
        Some(Err(AuthErrorView::InvalidCredentials(_))) => true,
        _ => false,
    }
}

/// Every validation verifies one password.
///
/// Whether the username is known or not, and whether the password is right
/// or wrong, validating credentials has the hasher verify exactly one
/// password and changes nothing else in the world. The credentials are
/// accepted, as the user stored for the username, if the username is known
/// and its hash verifies the password; in every other case the outcome is
/// `InvalidCredentials`, which does not tell the two cases apart. An unknown
/// username is verified against the fallback hash.
pub proof fn validation_verifies_one_password(world: World, credentials: CredentialsView)
    ensures
        ({
            let (state, step) = validation_of(credentials);
            let (after, outcome) = world.run_validation(state, step, 2);
            &&& after == World { verifications: world.verifications + 1, ..world }
            &&& accepts(world, credentials) ==> outcome == Some(
                Ok::<UserId, AuthErrorView>(world.credentials[credentials.username].user_id),
            )
            &&& !accepts(world, credentials) ==> is_refused(outcome)
            &&& !world.credentials.contains_key(credentials.username) ==> {
                let (looked, found) = world.perform(
                    CommandView::FetchCredentials { username: credentials.username },
                );
                state.advance(found).1 == AuthStepView::Call(
                    CommandView::VerifyPassword {
                        expected_hash: FALLBACK_PASSWORD_HASH@,
                        password: credentials.password,
                    },
                )
            }
        }),
{
    reveal_with_fuel(World::run_validation, 3);
}

/// The first step of a login with this username and password.
pub open spec fn login_of(credentials: CredentialsView) -> (LoginView, StepView) {
    (
        LoginView::Validating(ValidationView::Looking { password: credentials.password }),
        StepView::Call(CommandView::FetchCredentials { username: credentials.username }),
    )
}

/// A successful login rotates the session.
///
/// Where the world accepts the credentials, the login sends the client to
/// the dashboard with nothing to report; the session then has an id that
/// differs from the one it had before the login, the old id resolves to no
/// user any more, and the new one resolves to the user that logged in.
pub proof fn login_rotates_the_session(world: World, credentials: CredentialsView)
    requires
        world.well_formed(),
        accepts(world, credentials),
    ensures
        ({
            let (state, step) = login_of(credentials);
            let (after, response) = world.run_login(state, step, 4);
            &&& response == Some(
                spec_plain(ReplyView::Redirect { to: Location::AdminDashboard, flash: None }),
            )
            &&& after.session != world.session
            &&& !after.sessions.contains_key(world.session)
            &&& after.user_of(world.session) is None
            &&& after.user_of(after.session) == Some(
                world.credentials[credentials.username].user_id,
            )
            &&& after.well_formed()
        }),
{
    reveal_with_fuel(World::run_login, 5);
}

/// A failed login leaves the session alone and says the same every time.
///
/// Where the world does not accept the credentials, whether for the
/// username or for the password, the login makes no call on the session
/// store: the session keeps its id and its attributes. The client is sent
/// back to the login page with the one message "Authentication failed".
pub proof fn failed_login_leaves_the_session(world: World, credentials: CredentialsView)
    requires
        !accepts(world, credentials),
    ensures
        ({
            let (state, step) = login_of(credentials);
            let (after, response) = world.run_login(state, step, 4);
            &&& after == World { verifications: world.verifications + 1, ..world }
            &&& response matches Some(answer)
            &&& answer.reply == ReplyView::Redirect {
                to: Location::Login,
                flash: Some(FlashView { level: Level::Error, message: "Authentication failed"@ }),
            }
        }),
{
    reveal_with_fuel(World::run_login, 5);
}

/// The first step of a change of password.
pub open spec fn password_change_of(form: crate::routes::admin::password::FormDataView) -> (
    PasswordChangeView,
    StepView,
) {
    (PasswordChangeView::ReadingSession { form }, StepView::Call(CommandView::ReadSessionUser))
}

/// The password is changed only for the right current password and two equal
/// new ones, and then the new password is the one that validates.
///
/// Take a world with a faithful hasher, in which the session belongs to a
/// user whose stored hash was made of `current`. A change of password is
/// answered with "Your password has been changed." if and only if the form's
/// current password is `current` and its two new passwords are equal;
/// otherwise the credential store stays as it was. After a change the user's
/// credentials are accepted with the new password, and with the old one only
/// if the two are the same.
pub proof fn password_changes_only_when_verified(
    world: World,
    username: Seq<char>,
    user_id: UserId,
    current: Seq<char>,
    form: crate::routes::admin::password::FormDataView,
)
    requires
        world.hasher.is_faithful(),
        world.usernames_are_unique(),
        world.user_of(world.session) == Some(user_id),
        world.names(username, user_id),
        world.credentials[username].password_hash == (world.hasher.hash)(current),
    ensures
        ({
            let (state, step) = password_change_of(form);
            let (after, response) = world.run_password_change(state, step, 6);
            let changed = response == Some(back_to_form(changed_message()).1->Respond_0);
            &&& changed <==> (form.current_password == current && form.new_password
                == form.new_password_check)
            &&& !changed ==> after.credentials == world.credentials
            &&& changed ==> {
                &&& after.names(username, user_id)
                &&& accepts(
                    after,
                    CredentialsView { username, password: form.new_password },
                )
                &&& accepts(after, CredentialsView { username, password: current }) <==> current
                    == form.new_password
            }
        }),
{
    reveal_with_fuel(World::run_password_change, 7);
    reveal_strlit("You entered two different new passwords - the field values must match.");
    reveal_strlit("The current password is incorrect.");
    reveal_strlit("Your password has been changed.");
    let (state, step) = password_change_of(form);
    let (after, response) = world.run_password_change(state, step, 6);
    assert(mismatch_message().len() != changed_message().len());
    assert(incorrect_message().len() != changed_message().len());
    let (w1, e1) = world.perform(CommandView::ReadSessionUser);
    assert(e1 == crate::protocol::EventView::SessionUser(Some(user_id)));
    if form.new_password == form.new_password_check {
        let (w2, e2) = w1.perform(CommandView::FetchUsername { user_id });
        let chosen = choose|name: Seq<char>| world.names(name, user_id);
        assert(world.names(chosen, user_id));
        assert(chosen == username);
        assert(e2 == crate::protocol::EventView::Username(username));
        assert((world.hasher.verify)((world.hasher.hash)(current), form.current_password) == (
        current == form.current_password));
        if form.current_password == current {
            assert(after.credentials == world.with_password_hash(
                user_id,
                (world.hasher.hash)(form.new_password),
            ));
            assert((world.hasher.verify)((world.hasher.hash)(form.new_password), current) == (
            form.new_password == current));
            assert((world.hasher.verify)(
                (world.hasher.hash)(form.new_password),
                form.new_password,
            ));
        }
    }
}

/// Logging out destroys the session.
///
/// The session of an authenticated user is gone from the session store after
/// a logout, so that its id resolves to no user any more, and the client is
/// sent to the login page. A session without a user is sent there too, and
/// left as it is.
pub proof fn logout_destroys_the_session(world: World)
    ensures
        ({
            let (after, response) = world.run_logout(
                Logout::ReadingSession,
                StepView::Call(CommandView::ReadSessionUser),
                2,
            );
            &&& response matches Some(answer)
            &&& answer.report is None
            &&& world.user_of(world.session) is Some ==> {
                &&& !after.sessions.contains_key(world.session)
                &&& after.user_of(world.session) is None
                &&& answer.reply == ReplyView::Redirect {
                    to: Location::Login,
                    flash: Some(FlashView { level: Level::Info, message: logged_out_message() }),
                }
            }
            &&& world.user_of(world.session) is None ==> {
                &&& after == world
                &&& answer.reply == ReplyView::Redirect { to: Location::Login, flash: None }
            }
        }),
{
    reveal_with_fuel(World::run_logout, 3);
}

/// Without a login there is no way past the login page.
///
/// For a session without an authenticated user, the dashboard, the password
/// form and a change of password all send the client to the login page,
/// whatever the form holds, and leave the world as it was: no password is
/// verified, hashed or stored.
pub proof fn an_anonymous_session_is_sent_to_the_login_page(
    world: World,
    form: crate::routes::admin::password::FormDataView,
)
    requires
        world.user_of(world.session) is None,
    ensures
        ({
            let read = StepView::Call(CommandView::ReadSessionUser);
            let (state, step) = password_change_of(form);
            &&& world.run_dashboard(Dashboard::ReadingSession, read, 2) == (
                world,
                Some(to_login()->Respond_0),
            )
            &&& world.run_password_form(PasswordForm::ReadingSession, read, 1) == (
                world,
                Some(to_login()->Respond_0),
            )
            &&& world.run_password_change(state, step, 6) == (world, Some(to_login()->Respond_0))
            &&& to_login()->Respond_0.reply == ReplyView::Redirect {
                to: Location::Login,
                flash: None,
            }
        }),
{
    reveal_with_fuel(World::run_dashboard, 3);
    reveal_with_fuel(World::run_password_form, 2);
    reveal_with_fuel(World::run_password_change, 2);
}

/// The dashboard greets the user of the session by name.
///
/// For a session whose user the credential store knows, under one name, the
/// dashboard is shown with that name, and the world stays as it was.
pub proof fn the_dashboard_greets_the_user(world: World, username: Seq<char>, user_id: UserId)
    requires
        world.usernames_are_unique(),
        world.user_of(world.session) == Some(user_id),
        world.names(username, user_id),
    ensures
        world.run_dashboard(
            Dashboard::ReadingSession,
            StepView::Call(CommandView::ReadSessionUser),
            2,
        ) == (world, Some(spec_plain(ReplyView::Page(PageView::AdminDashboard { username })))),
{
    reveal_with_fuel(World::run_dashboard, 3);
    let chosen = choose|name: Seq<char>| world.names(name, user_id);
    assert(world.names(chosen, user_id));
    assert(chosen == username);
}

} // verus!
