//! Subscribing to the newsletter: validating the form, issuing a confirmation
//! token and composing the confirmation email.

use crate::domain::{
    invalid_email_message, invalid_name_message, is_alphanumeric, valid_email, NewSubscriber,
    NewSubscriberView, SubscriberEmail, SubscriberName,
};
use crate::error::{Error, ErrorView};
use crate::protocol::{
    Command, CommandView, Event, EventView, Reply, ReplyView, StatusCode, Step, StepView,
    SubscriberId, SubscriptionStatus,
};
use crate::utils::{detail_of, fault_detail, plain, spec_plain};
use rand::Rng;
use unicode_segmentation::UnicodeSegmentation;
use vstd::prelude::*;
use vstd::std_specs::iter::IteratorSpec;

verus! {

/// The longest subscriber name that is accepted, in grapheme clusters.
pub const MAX_NAME_GRAPHEMES: usize = 256;

/// Whether `c` has the Unicode property White_Space.
pub open spec fn is_white_space(c: char) -> bool {
    ||| ('\u{9}' <= c && c <= '\u{D}')
    ||| c == ' '
    ||| c == '\u{85}'
    ||| c == '\u{A0}'
    ||| c == '\u{1680}'
    ||| ('\u{2000}' <= c && c <= '\u{200A}')
    ||| c == '\u{2028}'
    ||| c == '\u{2029}'
    ||| c == '\u{202F}'
    ||| c == '\u{205F}'
    ||| c == '\u{3000}'
}

/// Whether `c` may not occur in a subscriber name.
pub open spec fn is_forbidden(c: char) -> bool {
    ||| c == '/'
    ||| c == '('
    ||| c == ')'
    ||| c == '"'
    ||| c == '<'
    ||| c == '>'
    ||| c == '\\'
    ||| c == '{'
    ||| c == '}'
}

/// Whether nothing is left of `s` once leading and trailing white space is
/// trimmed: every character of it is white space.
pub open spec fn is_blank(s: Seq<char>) -> bool {
    forall|i: int| 0 <= i < s.len() ==> is_white_space(#[trigger] s[i])
}

/// Whether some character of `s` is forbidden in a name.
pub open spec fn contains_forbidden(s: Seq<char>) -> bool {
    exists|i: int| 0 <= i < s.len() && is_forbidden(#[trigger] s[i])
}

/// The number of extended grapheme clusters of `s`, as Unicode's text
/// segmentation rules delimit them.
pub uninterp spec fn grapheme_count(s: Seq<char>) -> nat;

/// What makes a name acceptable, given the number of its grapheme clusters.
pub open spec fn acceptable_name(s: Seq<char>, graphemes: nat) -> bool {
    &&& !is_blank(s)
    &&& graphemes <= MAX_NAME_GRAPHEMES
    &&& !contains_forbidden(s)
}

/// The rule for subscriber names.
pub open spec fn valid_name(s: Seq<char>) -> bool {
    acceptable_name(s, grapheme_count(s))
}

/// Counts the extended grapheme clusters of `s` with
/// `UnicodeSegmentation::graphemes`. Trusted: the count is the one that
/// `grapheme_count` names, a function of the text alone.
#[verifier::external_body]
fn count_graphemes(s: &str) -> (n: usize)
    ensures
        n == grapheme_count(s@),
{
    s.graphemes(true).count()
}

fn is_whitespace_char(c: char) -> (r: bool)
    ensures
        r == is_white_space(c),
{
    ('\u{9}' <= c && c <= '\u{D}') || c == ' ' || c == '\u{85}' || c == '\u{A0}' || c
        == '\u{1680}' || ('\u{2000}' <= c && c <= '\u{200A}') || c == '\u{2028}' || c
        == '\u{2029}' || c == '\u{202F}' || c == '\u{205F}' || c == '\u{3000}'
}

fn is_forbidden_char(c: char) -> (r: bool)
    ensures
        r == is_forbidden(c),
{
    c == '/' || c == '(' || c == ')' || c == '"' || c == '<' || c == '>' || c == '\\' || c
        == '{' || c == '}'
}

/// Reading one more character of `s` extends what was read by that
/// character, for the two scans that name validation makes.
proof fn lemma_take_one_more(s: Seq<char>, n: int)
    requires
        0 <= n < s.len(),
    ensures
        is_blank(s.take(n + 1)) == (is_blank(s.take(n)) && is_white_space(s[n])),
        contains_forbidden(s.take(n + 1)) == (contains_forbidden(s.take(n)) || is_forbidden(
            s[n],
        )),
{
    let before = s.take(n);
    let after = s.take(n + 1);
    assert(after[n] == s[n]);
    assert forall|i: int| 0 <= i < n implies before[i] == after[i] by {}
    if is_blank(before) && is_white_space(s[n]) {
        assert forall|i: int| 0 <= i < after.len() implies is_white_space(
            #[trigger] after[i],
        ) by {
            if i < n {
                assert(after[i] == before[i]);
            }
        }
    }
    if is_blank(after) {
        assert(is_white_space(after[n]));
        assert forall|i: int| 0 <= i < before.len() implies is_white_space(
            #[trigger] before[i],
        ) by {
            assert(before[i] == after[i]);
        }
    }
    if contains_forbidden(before) {
        let i = choose|i: int| 0 <= i < before.len() && is_forbidden(#[trigger] before[i]);
        assert(is_forbidden(after[i]));
    }
    if is_forbidden(s[n]) {
        assert(is_forbidden(after[n]));
    }
    if contains_forbidden(after) {
        let i = choose|i: int| 0 <= i < after.len() && is_forbidden(#[trigger] after[i]);
        if i < n {
            assert(is_forbidden(before[i]));
        }
    }
}

/// Decides whether `s` is an acceptable name, given the number of grapheme
/// clusters it has.
pub fn name_is_acceptable(s: &str, graphemes: usize) -> (r: bool)
    ensures
        r == acceptable_name(s@, graphemes as nat),
{
    let mut blank = true;
    let mut forbidden = false;
    let mut chars = s.chars();
    let ghost mut seen: int = 0;
    loop
        invariant
            0 <= seen <= s@.len(),
            chars.remaining() == s@.skip(seen),
            blank == is_blank(s@.take(seen)),
            forbidden == contains_forbidden(s@.take(seen)),
        ensures
            seen == s@.len(),
        decreases s@.len() - seen,
    {
        match chars.next() {
            Some(c) => {
                blank = blank && is_whitespace_char(c);
                forbidden = forbidden || is_forbidden_char(c);
                proof {
                    lemma_take_one_more(s@, seen);
                    seen = seen + 1;
                }
            },
            None => {
                break ;
            },
        }
    }
    assert(s@.take(seen) == s@);
    !(blank || graphemes > MAX_NAME_GRAPHEMES || forbidden)
}

/// Returns `true` if the input satisfies all the constraints on subscriber
/// names, `false` otherwise.
pub fn is_valid_name(s: &str) -> (r: bool)
    ensures
        r == valid_name(s@),
{
    name_is_acceptable(s, count_graphemes(s))
}

/// The form that a visitor submits to subscribe.
#[derive(Clone, Debug, PartialEq, Eq)]
pub struct FormData {
    pub email: String,
    pub name: String,
}

pub struct FormDataView {
    pub email: Seq<char>,
    pub name: Seq<char>,
}

impl View for FormData {
    type V = FormDataView;

    open spec fn view(&self) -> FormDataView {
        FormDataView { email: self.email@, name: self.name@ }
    }
}

impl FormDataView {
    /// Whether both fields satisfy their rules.
    pub open spec fn is_valid(self) -> bool {
        valid_name(self.name) && valid_email(self.email)
    }

    /// Why the form is refused: the name is looked at first.
    pub open spec fn refusal(self) -> Seq<char> {
        if !valid_name(self.name) {
            invalid_name_message(self.name)
        } else {
            invalid_email_message(self.email)
        }
    }
}

impl NewSubscriber {
    /// Validates a form. The result holds the form's two fields unchanged if
    /// both are valid; otherwise it says what is wrong with the first that is
    /// not, the name before the address.
    pub fn try_from(form: FormData) -> (r: Result<NewSubscriber, String>)
        ensures
            match r {
                Ok(subscriber) => form@.is_valid() && subscriber@.name == form@.name
                    && subscriber@.email == form@.email,
                Err(reason) => !form@.is_valid() && reason@ == form@.refusal(),
            },
    {
        let name = match SubscriberName::parse(form.name) {
            Ok(name) => name,
            Err(reason) => {
                return Err(reason);
            },
        };
        let email = match SubscriberEmail::parse(form.email) {
            Ok(email) => email,
            Err(reason) => {
                return Err(reason);
            },
        };
        Ok(NewSubscriber { email, name })
    }
}

/// The length of a confirmation token, in characters.
pub const TOKEN_LENGTH: usize = 25;

/// What every confirmation token looks like: 25 ASCII letters and digits.
pub open spec fn is_subscription_token(token: Seq<char>) -> bool {
    &&& token.len() == TOKEN_LENGTH
    &&& forall|i: int| 0 <= i < token.len() ==> is_alphanumeric(#[trigger] token[i])
}

/// Whether `value` has the version and variant bits of a random UUID.
pub open spec fn is_random_uuid(value: u128) -> bool {
    (value >> 76) & 0xF == 4 && (value >> 62) & 0x3 == 2
}

/// Draws one byte with `Rng::sample` from the distribution `Alphanumeric`,
/// on the thread's generator. Trusted: whichever byte is drawn, it is an
/// ASCII letter or digit. Panics only where the operating system gives the
/// generator no seed.
#[verifier::external_body]
fn sample_alphanumeric() -> (byte: u8)
    ensures
        is_alphanumeric(byte as char),
{
    rand::rng().sample(rand::distr::Alphanumeric)
}

/// Draws a random UUID with `Uuid::new_v4` and hands it out as the number
/// `Uuid::as_u128` gives. Trusted: whatever is drawn has the version and
/// variant bits of a random UUID. Panics only where the operating system
/// gives no random bytes.
#[verifier::external_body]
fn random_uuid() -> (value: u128)
    ensures
        is_random_uuid(value),
{
    uuid::Uuid::new_v4().as_u128()
}

/// `String::push`, which the standard library documents to append the given
/// character to the end of the string. Trusted: the string afterwards is the
/// string before with `c` behind it.
pub assume_specification[ String::push ](s: &mut String, c: char)
    ensures
        final(s)@ == old(s)@.push(c),
;

impl SubscriberId {
    /// A new identity for a subscriber, drawn at random.
    pub fn generate() -> (id: SubscriberId)
        ensures
            is_random_uuid(id.0),
    {
        SubscriberId(random_uuid())
    }
}

/// Generate a random 25-characters-long case-sensitive subscription token.
pub fn generate_subscription_token() -> (token: String)
    ensures
        is_subscription_token(token@),
{
    let mut token = String::new();
    let mut i: usize = 0;
    while i < TOKEN_LENGTH
        invariant
            i <= TOKEN_LENGTH,
            token@.len() == i,
            forall|j: int| 0 <= j < token@.len() ==> is_alphanumeric(#[trigger] token@[j]),
        decreases TOKEN_LENGTH - i,
    {
        let byte = sample_alphanumeric();
        token.push(byte as char);
        i += 1;
    }
    token
}

/// Checks that `token` looks like a confirmation token.
pub fn is_valid_token(token: &str) -> (r: bool)
    ensures
        r == is_subscription_token(token@),
{
    let v = crate::domain::chars_of(token);
    if v.len() != TOKEN_LENGTH {
        return false;
    }
    let mut i: usize = 0;
    while i < v.len()
        invariant
            i <= v@.len(),
            v@ == token@,
            forall|j: int| 0 <= j < i ==> is_alphanumeric(#[trigger] v@[j]),
        decreases v@.len() - i,
    {
        let c = v[i];
        if !(('a' <= c && c <= 'z') || ('A' <= c && c <= 'Z') || ('0' <= c && c <= '9')) {
            return false;
        }
        i += 1;
    }
    true
}

/// The call that saves a new subscriber, not yet confirmed.
pub open spec fn spec_insert_subscriber(
    subscriber: NewSubscriberView,
    id: SubscriberId,
) -> CommandView {
    CommandView::InsertSubscriber {
        id,
        email: subscriber.email,
        name: subscriber.name,
        status: SubscriptionStatus::PendingConfirmation,
    }
}

/// Saving new subscriber details in the repository: the subscriber starts
/// out pending confirmation.
pub fn insert_subscriber(new_subscriber: &NewSubscriber, id: SubscriberId) -> (command: Command)
    ensures
        command@ == spec_insert_subscriber(new_subscriber@, id),
{
    Command::InsertSubscriber {
        id,
        email: String::from_str(new_subscriber.email.as_ref()),
        name: String::from_str(new_subscriber.name.as_ref()),
        status: SubscriptionStatus::PendingConfirmation,
    }
}

/// Store the subscription token of a subscriber in the repository.
pub fn store_token(subscriber_id: SubscriberId, subscription_token: &str) -> (command: Command)
    ensures
        command@ == (CommandView::StoreToken {
            subscriber_id,
            subscription_token: subscription_token@,
        }),
{
    Command::StoreToken { subscriber_id, subscription_token: String::from_str(subscription_token) }
}

/// The link that confirms the subscription that `subscription_token` was
/// issued for.
pub open spec fn confirmation_link(base_url: Seq<char>, subscription_token: Seq<char>) -> Seq<
    char,
> {
    base_url + "/subscriptions/confirm?subscription_token="@ + subscription_token
}

/// The confirmation email for a new subscriber: the link, once as plain text
/// and once as HTML.
pub open spec fn spec_send_confirmation_email(
    subscriber: NewSubscriberView,
    base_url: Seq<char>,
    subscription_token: Seq<char>,
) -> CommandView {
    let link = confirmation_link(base_url, subscription_token);
    CommandView::SendEmail {
        recipient: subscriber.email,
        subject: "Welcome!"@,
        html_body: "Welcome to our newsletter!<br />Click <a href=\""@ + link
            + "\">here</a> to confirm your subscription."@,
        text_body: "Welcome to our newsletter!\nVisit "@ + link
            + " to confirm your subscription."@,
    }
}

/// Send a confirmation email to a new subscriber: composes the email that
/// carries the confirmation link.
pub fn send_confirmation_email(
    new_subscriber: &NewSubscriber,
    base_url: &str,
    subscription_token: &str,
) -> (command: Command)
    ensures
        command@ == spec_send_confirmation_email(
            new_subscriber@,
            base_url@,
            subscription_token@,
        ),
{
    let confirmation_link = String::from_str(base_url).concat(
        "/subscriptions/confirm?subscription_token=",
    ).concat(subscription_token);
    let plain_body = String::from_str("Welcome to our newsletter!\nVisit ").concat(
        confirmation_link.as_str(),
    ).concat(" to confirm your subscription.");
    let html_body = String::from_str("Welcome to our newsletter!<br />Click <a href=\"").concat(
        confirmation_link.as_str(),
    ).concat("\">here</a> to confirm your subscription.");
    Command::SendEmail {
        recipient: String::from_str(new_subscriber.email.as_ref()),
        subject: String::from_str("Welcome!"),
        html_body,
        text_body: plain_body,
    }
}

/// What a subscription in progress carries along.
#[derive(Debug)]
pub struct Pending {
    pub subscriber: NewSubscriber,
    pub subscriber_id: SubscriberId,
    pub subscription_token: String,
    pub base_url: String,
}

pub struct PendingView {
    pub subscriber: NewSubscriberView,
    pub subscriber_id: SubscriberId,
    pub subscription_token: Seq<char>,
    pub base_url: Seq<char>,
}

impl View for Pending {
    type V = PendingView;

    open spec fn view(&self) -> PendingView {
        PendingView {
            subscriber: self.subscriber@,
            subscriber_id: self.subscriber_id,
            subscription_token: self.subscription_token@,
            base_url: self.base_url@,
        }
    }
}

/// How far a subscription has come. Each state but the last names the call
/// whose outcome it waits for.
#[derive(Debug)]
pub enum Subscription {
    /// Waiting for the transaction to open.
    Opening(Pending),
    /// Waiting for the subscriber to be saved.
    Inserting(Pending),
    /// Waiting for the token to be saved.
    StoringToken(Pending),
    /// Waiting for the commit.
    Committing(Pending),
    /// Waiting for the email to be sent; the subscriber is saved for good.
    Sending,
    /// Over: the visitor has been answered.
    Finished,
}

pub enum SubscriptionView {
    Opening(PendingView),
    Inserting(PendingView),
    StoringToken(PendingView),
    Committing(PendingView),
    Sending,
    Finished,
}

impl View for Subscription {
    type V = SubscriptionView;

    open spec fn view(&self) -> SubscriptionView {
        match self {
            Subscription::Opening(p) => SubscriptionView::Opening(p@),
            Subscription::Inserting(p) => SubscriptionView::Inserting(p@),
            Subscription::StoringToken(p) => SubscriptionView::StoringToken(p@),
            Subscription::Committing(p) => SubscriptionView::Committing(p@),
            Subscription::Sending => SubscriptionView::Sending,
            Subscription::Finished => SubscriptionView::Finished,
        }
    }
}

/// A subscription that ends on a fault.
pub open spec fn failed(error: ErrorView) -> (SubscriptionView, StepView) {
    (SubscriptionView::Finished, StepView::Respond(error.into_response()))
}

/// The first step of a subscription. A form that is not valid is answered at
/// once, with the reason and without a call on the repository; a valid one has
/// a transaction opened.
pub open spec fn spec_subscribe(
    form: FormDataView,
    base_url: Seq<char>,
    subscriber_id: SubscriberId,
    subscription_token: Seq<char>,
) -> (SubscriptionView, StepView) {
    if form.is_valid() {
        (
            SubscriptionView::Opening(
                PendingView {
                    subscriber: NewSubscriberView { email: form.email, name: form.name },
                    subscriber_id,
                    subscription_token,
                    base_url,
                },
            ),
            StepView::Call(CommandView::BeginTransaction),
        )
    } else {
        failed(ErrorView::ValidationError(form.refusal()))
    }
}

impl SubscriptionView {
    /// The step that follows `event`. The subscriber is saved, then the
    /// token, then the transaction is committed and only then the email sent.
    /// The first call that does not go through ends the workflow with status
    /// 500, whichever it is; nothing is called after it.
    ///
    /// A workflow that is over answers whatever comes next with a fault.
    pub open spec fn advance(self, event: EventView) -> (SubscriptionView, StepView) {
        let detail = fault_detail(event);
        match self {
            SubscriptionView::Opening(p) => if event is Done {
                (
                    SubscriptionView::Inserting(p),
                    StepView::Call(spec_insert_subscriber(p.subscriber, p.subscriber_id)),
                )
            } else {
                failed(ErrorView::DatabaseError(detail))
            },
            SubscriptionView::Inserting(p) => if event is Done {
                (
                    SubscriptionView::StoringToken(p),
                    StepView::Call(
                        CommandView::StoreToken {
                            subscriber_id: p.subscriber_id,
                            subscription_token: p.subscription_token,
                        },
                    ),
                )
            } else {
                failed(ErrorView::DatabaseError(detail))
            },
            SubscriptionView::StoringToken(p) => if event is Done {
                (SubscriptionView::Committing(p), StepView::Call(CommandView::Commit))
            } else {
                failed(ErrorView::StoreTokenError(detail))
            },
            SubscriptionView::Committing(p) => if event is Done {
                (
                    SubscriptionView::Sending,
                    StepView::Call(
                        spec_send_confirmation_email(
                            p.subscriber,
                            p.base_url,
                            p.subscription_token,
                        ),
                    ),
                )
            } else {
                failed(ErrorView::DatabaseError(detail))
            },
            SubscriptionView::Sending => if event is Done {
                (
                    SubscriptionView::Finished,
                    StepView::Respond(spec_plain(ReplyView::Status(StatusCode::Success))),
                )
            } else {
                failed(ErrorView::SendEmailError(detail))
            },
            SubscriptionView::Finished => failed(ErrorView::DatabaseError(detail)),
        }
    }
}

fn fail(error: Error) -> (r: (Subscription, Step))
    ensures
        (r.0@, r.1@) == failed(error@),
{
    (Subscription::Finished, Step::Respond(error.into_response()))
}

/// Starts a subscription with the identity and the token that it is to use.
pub fn subscribe_with(
    form: FormData,
    base_url: &str,
    subscriber_id: SubscriberId,
    subscription_token: String,
) -> (r: (Subscription, Step))
    ensures
        (r.0@, r.1@) == spec_subscribe(form@, base_url@, subscriber_id, subscription_token@),
{
    match NewSubscriber::try_from(form) {
        Ok(subscriber) => (
            Subscription::Opening(
                Pending {
                    subscriber,
                    subscriber_id,
                    subscription_token,
                    base_url: String::from_str(base_url),
                },
            ),
            Step::Call(Command::BeginTransaction),
        ),
        Err(reason) => fail(Error::ValidationError(reason)),
    }
}

/// Adding a new subscriber. Validates the form; for a valid one, draws the
/// subscriber's identity and a confirmation token at random and asks for a
/// transaction. No two calls need draw the same.
pub fn subscribe(form: FormData, base_url: &str) -> (r: (Subscription, Step))
    ensures
        !form@.is_valid() ==> (r.0@, r.1@) == failed(
            ErrorView::ValidationError(form@.refusal()),
        ),
        form@.is_valid() ==> {
            &&& r.1@ == StepView::Call(CommandView::BeginTransaction)
            &&& r.0@ matches SubscriptionView::Opening(p)
            &&& p.subscriber == (NewSubscriberView { email: form@.email, name: form@.name })
            &&& p.base_url == base_url@
            &&& is_random_uuid(p.subscriber_id.0)
            &&& is_subscription_token(p.subscription_token)
        },
{
    if is_valid_name(form.name.as_str()) && crate::domain::is_valid_email(form.email.as_str()) {
        let id = SubscriberId::generate();
        let token = generate_subscription_token();
        subscribe_with(form, base_url, id, token)
    } else {
        subscribe_with(form, base_url, SubscriberId(0), String::new())
    }
}

impl Subscription {
    /// Takes what came of the last call and says what to do next.
    pub fn advance(self, event: Event) -> (r: (Subscription, Step))
        ensures
            (r.0@, r.1@) == self@.advance(event@),
    {
        match (self, event) {
            (Subscription::Opening(p), Event::Done) => {
                let command = insert_subscriber(&p.subscriber, p.subscriber_id);
                (Subscription::Inserting(p), Step::Call(command))
            },
            (Subscription::Inserting(p), Event::Done) => {
                let command = store_token(p.subscriber_id, p.subscription_token.as_str());
                (Subscription::StoringToken(p), Step::Call(command))
            },
            (Subscription::StoringToken(p), Event::Done) => {
                (Subscription::Committing(p), Step::Call(Command::Commit))
            },
            (Subscription::Committing(p), Event::Done) => {
                let command = send_confirmation_email(
                    &p.subscriber,
                    p.base_url.as_str(),
                    p.subscription_token.as_str(),
                );
                (Subscription::Sending, Step::Call(command))
            },
            (Subscription::Sending, Event::Done) => {
                (Subscription::Finished, Step::Respond(plain(Reply::Status(StatusCode::Success))))
            },
            (Subscription::StoringToken(_), event) => fail(
                Error::StoreTokenError(detail_of(event)),
            ),
            (Subscription::Sending, event) => fail(Error::SendEmailError(detail_of(event))),
            (_, event) => fail(Error::DatabaseError(detail_of(event))),
        }
    }
}

} // verus!
