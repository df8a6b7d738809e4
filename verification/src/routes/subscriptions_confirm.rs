//! Confirming a subscription from the link in the confirmation e-mail.
use crate::http::HttpStatus;
use vstd::prelude::*;

verus! {

/// The query parameters that the confirmation link carries.
pub struct Parameters {
    pub subscription_token: String,
}

/// What the lookup of a subscription token found.
pub enum TokenLookup {
    /// The query failed.
    Failed,
    /// No subscriber holds the token.
    Unknown,
    /// The subscriber with this id holds the token.
    Found(u128),
}

/// Where a confirmation stands, between two steps that talk to the database.
pub enum ConfirmState {
    /// The token is being looked up.
    LookingUpToken,
    /// The subscriber is being marked as confirmed.
    ConfirmingSubscriber,
}

/// What the handler asks its caller to do next.
pub enum ConfirmAction {
    /// Find the subscriber that holds this token.
    LookUpToken(String),
    /// Mark the subscriber with this id as confirmed.
    ConfirmSubscriber(u128),
}

/// What the caller reports back after an action.
pub enum ConfirmEvent {
    /// The result of the lookup.
    TokenLookedUp(TokenLookup),
    /// Whether the subscriber could be marked as confirmed.
    SubscriberConfirmed(bool),
}

/// The handler either continues with an action, or answers with a status.
pub enum ConfirmStep {
    Continue(ConfirmState, ConfirmAction),
    Finish(HttpStatus),
}

/// The event that answers the action taken in `state`.
pub open spec fn confirm_expects(state: ConfirmState, event: ConfirmEvent) -> bool {
    match state {
        ConfirmState::LookingUpToken => event is TokenLookedUp,
        ConfirmState::ConfirmingSubscriber => event is SubscriberConfirmed,
    }
}

/// One step of the handler: from `state`, on `event`, to `step`.
pub open spec fn confirm_transition(state: ConfirmState, event: ConfirmEvent, step: ConfirmStep) -> bool {
    match event {
        ConfirmEvent::TokenLookedUp(TokenLookup::Failed) => step == ConfirmStep::Finish(
            HttpStatus::InternalServerError,
        ),
        ConfirmEvent::TokenLookedUp(TokenLookup::Unknown) => step == ConfirmStep::Finish(
            HttpStatus::Unauthorized,
        ),
        ConfirmEvent::TokenLookedUp(TokenLookup::Found(id)) => step == ConfirmStep::Continue(
            ConfirmState::ConfirmingSubscriber,
            ConfirmAction::ConfirmSubscriber(id),
        ),
        ConfirmEvent::SubscriberConfirmed(ok) => step == ConfirmStep::Finish(
            if ok {
                HttpStatus::Success
            } else {
                HttpStatus::InternalServerError
            },
        ),
    }
}

/// How the handler starts: by looking up the token of the request.
pub fn confirm_start(parameters: Parameters) -> (step: ConfirmStep)
    ensures
        step == ConfirmStep::Continue(
            ConfirmState::LookingUpToken,
            ConfirmAction::LookUpToken(parameters.subscription_token),
        ),
{
    ConfirmStep::Continue(
        ConfirmState::LookingUpToken,
        ConfirmAction::LookUpToken(parameters.subscription_token),
    )
}

/// One step of the handler, on the event that answers the last action.
pub fn confirm_step(state: ConfirmState, event: ConfirmEvent) -> (step: ConfirmStep)
    requires
        confirm_expects(state, event),
    ensures
        confirm_transition(state, event, step),
{
    match event {
        ConfirmEvent::TokenLookedUp(TokenLookup::Failed) => ConfirmStep::Finish(
            HttpStatus::InternalServerError,
        ),
        ConfirmEvent::TokenLookedUp(TokenLookup::Unknown) => ConfirmStep::Finish(
            HttpStatus::Unauthorized,
        ),
        ConfirmEvent::TokenLookedUp(TokenLookup::Found(id)) => ConfirmStep::Continue(
            ConfirmState::ConfirmingSubscriber,
            ConfirmAction::ConfirmSubscriber(id),
        ),
        ConfirmEvent::SubscriberConfirmed(ok) => ConfirmStep::Finish(
            if ok {
                HttpStatus::Success
            } else {
                HttpStatus::InternalServerError
            },
        ),
    }
}

/// What each report leads to: a lookup that finds a subscriber id, whatever
/// the id, always goes on to confirm that same subscriber and never ends the
/// handler; 401 Unauthorized is answered exactly when the lookup found no
/// subscriber, 200 OK exactly when the subscriber was confirmed, and 500
/// exactly when the lookup or the confirmation failed.
pub proof fn lemma_confirm_step_answers(state: ConfirmState, event: ConfirmEvent, step: ConfirmStep)
    requires
        confirm_expects(state, event),
        confirm_transition(state, event, step),
    ensures
        event matches ConfirmEvent::TokenLookedUp(TokenLookup::Found(id)) ==> step
            == ConfirmStep::Continue(
            ConfirmState::ConfirmingSubscriber,
            ConfirmAction::ConfirmSubscriber(id),
        ),
        step matches ConfirmStep::Continue(_, ConfirmAction::ConfirmSubscriber(id)) ==> event
            == ConfirmEvent::TokenLookedUp(TokenLookup::Found(id)),
        step is Continue ==> state == ConfirmState::LookingUpToken,
        step == ConfirmStep::Finish(HttpStatus::Unauthorized) <==> event
            == ConfirmEvent::TokenLookedUp(TokenLookup::Unknown),
        step == ConfirmStep::Finish(HttpStatus::Success) <==> event
            == ConfirmEvent::SubscriberConfirmed(true),
        step == ConfirmStep::Finish(HttpStatus::InternalServerError) <==> (event
            == ConfirmEvent::TokenLookedUp(TokenLookup::Failed) || event
            == ConfirmEvent::SubscriberConfirmed(false)),
{
}

/// `steps` are the steps taken from `state` on `events`, one per event, each
/// from the state that the step before continued in; a finished step is last.
pub open spec fn confirm_run(state: ConfirmState, events: Seq<ConfirmEvent>, steps: Seq<ConfirmStep>) -> bool
    decreases events.len(),
{
    &&& events.len() == steps.len()
    &&& events.len() > 0 ==> {
        &&& confirm_expects(state, events[0])
        &&& confirm_transition(state, events[0], steps[0])
        &&& match steps[0] {
            ConfirmStep::Continue(next, _) => confirm_run(
                next,
                events.drop_first(),
                steps.drop_first(),
            ),
            ConfirmStep::Finish(_) => events.len() == 1,
        }
    }
}

/// A confirmation is answered with 200 OK only when the token was found and
/// the subscriber holding it was then marked as confirmed; a token that no
/// subscriber holds is answered with 401 Unauthorized and nobody is confirmed.
pub proof fn lemma_confirmed_only_with_a_known_token(
    events: Seq<ConfirmEvent>,
    steps: Seq<ConfirmStep>,
)
    requires
        confirm_run(ConfirmState::LookingUpToken, events, steps),
        steps.len() > 0,
    ensures
        steps.last() == ConfirmStep::Finish(HttpStatus::Success) <==> ({
            &&& events.len() == 2
            &&& events[0] matches ConfirmEvent::TokenLookedUp(TokenLookup::Found(id))
            &&& steps[0] == ConfirmStep::Continue(
                ConfirmState::ConfirmingSubscriber,
                ConfirmAction::ConfirmSubscriber(id),
            )
            &&& events[1] == ConfirmEvent::SubscriberConfirmed(true)
        }),
        events[0] == ConfirmEvent::TokenLookedUp(TokenLookup::Unknown) ==> steps == seq![
            ConfirmStep::Finish(HttpStatus::Unauthorized),
        ],
{
    reveal_with_fuel(confirm_run, 3);
    if events[0] == ConfirmEvent::TokenLookedUp(TokenLookup::Unknown) {
        assert(steps =~= seq![ConfirmStep::Finish(HttpStatus::Unauthorized)]);
    }
}

} // verus!
