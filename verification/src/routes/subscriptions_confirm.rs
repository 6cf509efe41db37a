//! Confirming a subscription through the link that was sent by email.

use crate::protocol::{
    Command, CommandView, Event, EventView, Reply, ReplyView, StatusCode, Step, StepView,
    SubscriberId,
};
use crate::utils::{detail_of, e500, fault_detail, plain, spec_e500, spec_plain};
use vstd::prelude::*;

verus! {

/// The query parameters of a confirmation link.
#[derive(Clone, Debug, PartialEq, Eq)]
pub struct Parameters {
    pub subscription_token: String,
}

/// How far a confirmation has come.
#[derive(Clone, Copy, Debug, PartialEq, Eq, Structural)]
pub enum Confirmation {
    /// Waiting for the token to be resolved.
    Resolving,
    /// Waiting for the subscriber's status to be set.
    Updating,
    /// Over: the visitor has been answered.
    Finished,
}

/// The answer to a confirmation that is over, with nothing to report.
pub open spec fn answered(code: StatusCode) -> (Confirmation, StepView) {
    (Confirmation::Finished, StepView::Respond(spec_plain(ReplyView::Status(code))))
}

/// The answer to a confirmation that met a fault.
pub open spec fn faulted(detail: Seq<char>) -> (Confirmation, StepView) {
    (Confirmation::Finished, StepView::Respond(spec_e500(detail)))
}

impl Confirmation {
    /// The step that follows `event`. A token that resolves to nobody is
    /// answered with status 401 and is no fault; one that resolves has its
    /// subscriber confirmed, whatever the subscriber's status was, and is
    /// answered with status 200. A call that fails is answered with 500.
    ///
    /// A workflow that is over answers whatever comes next with a fault.
    pub open spec fn spec_advance(self, event: EventView) -> (Confirmation, StepView) {
        match self {
            Confirmation::Resolving => match event {
                EventView::Subscriber(None) => answered(StatusCode::Unauthorized),
                EventView::Subscriber(Some(id)) => (
                    Confirmation::Updating,
                    StepView::Call(CommandView::ConfirmSubscriber { id }),
                ),
                _ => faulted(fault_detail(event)),
            },
            Confirmation::Updating => match event {
                EventView::Done => answered(StatusCode::Success),
                _ => faulted(fault_detail(event)),
            },
            Confirmation::Finished => faulted(fault_detail(event)),
        }
    }

    /// Takes what came of the last call and says what to do next.
    pub fn advance(self, event: Event) -> (r: (Confirmation, Step))
        ensures
            (r.0, r.1@) == self.spec_advance(event@),
    {
        match (self, event) {
            (Confirmation::Resolving, Event::Subscriber(None)) => (
                Confirmation::Finished,
                Step::Respond(plain(Reply::Status(StatusCode::Unauthorized))),
            ),
            (Confirmation::Resolving, Event::Subscriber(Some(id))) => (
                Confirmation::Updating,
                Step::Call(confirm_subscriber(id)),
            ),
            (Confirmation::Updating, Event::Done) => (
                Confirmation::Finished,
                Step::Respond(plain(Reply::Status(StatusCode::Success))),
            ),
            (_, event) => {
                let detail = detail_of(event);
                (Confirmation::Finished, Step::Respond(e500(detail.as_str())))
            },
        }
    }
}

/// Confirm a pending subscriber: starts by resolving the token of the link.
pub fn confirm(parameters: Parameters) -> (r: (Confirmation, Step))
    ensures
        r.0 == Confirmation::Resolving,
        r.1@ == StepView::Call(
            CommandView::ResolveToken { subscription_token: parameters.subscription_token@ },
        ),
{
    (
        Confirmation::Resolving,
        Step::Call(get_subscriber_id_from_token(parameters.subscription_token.as_str())),
    )
}

/// Mark a subscriber as confirmed.
pub fn confirm_subscriber(subscriber_id: SubscriberId) -> (command: Command)
    ensures
        command@ == (CommandView::ConfirmSubscriber { id: subscriber_id }),
{
    Command::ConfirmSubscriber { id: subscriber_id }
}

/// Get the subscriber that a token was issued for.
pub fn get_subscriber_id_from_token(subscription_token: &str) -> (command: Command)
    ensures
        command@ == (CommandView::ResolveToken { subscription_token: subscription_token@ }),
{
    Command::ResolveToken { subscription_token: String::from_str(subscription_token) }
}

} // verus!
