//! Confirming a subscription: resolve the presented token to its subscriber
//! and mark that subscriber as confirmed.

use crate::errors::report_storage_failure;
use crate::errors::storage_report;
use crate::errors::ErrorReport;
use crate::errors::ErrorReportView;
use crate::errors::RetrieveSubscriberIdError;
use crate::errors::SubscriptionConfirmationError;
use crate::outcome::Outcome;
use crate::outcome::OutcomeView;
use crate::routes::subscriptions::unexpected_event_report;
use crate::store::StorageError;
use crate::store::SubscriberId;
use vstd::prelude::*;

verus! {

/// The query of a confirmation request.
#[derive(Debug, PartialEq, Eq)]
pub struct Parameters {
    pub subscription_token: String,
}

/// How far one confirmation has come. Each state names the action whose
/// result is awaited.
#[derive(Clone, Copy, Debug, PartialEq, Eq, Structural)]
pub enum ConfirmState {
    /// Nothing has been done; the request is awaited.
    Start,
    /// The token is being looked up.
    LookingUp,
    /// The subscriber is being marked as confirmed.
    Confirming,
    /// The request has been answered.
    Done,
}

impl ConfirmState {
    /// An upper bound on the actions still to come.
    pub open spec fn remaining_steps(self) -> nat {
        match self {
            ConfirmState::Start => 3,
            ConfirmState::LookingUp => 2,
            ConfirmState::Confirming => 1,
            ConfirmState::Done => 0,
        }
    }
}

/// What the machine is told: the request that starts it, or what came of the
/// action it requested last.
#[derive(Debug)]
pub enum ConfirmEvent {
    /// A confirmation was requested.
    Requested(Parameters),
    /// The lookup found this subscriber, or none.
    Found(Option<SubscriberId>),
    /// The update succeeded.
    Completed,
    /// The requested storage action failed.
    Failed(StorageError),
}

/// What the machine asks for next.
#[derive(Debug)]
pub enum ConfirmAction {
    /// Look up the subscriber that the token is bound to.
    FindSubscriber { subscription_token: String },
    /// Mark the subscriber as confirmed.
    ConfirmSubscriber(SubscriberId),
    /// Answer the request; nothing follows.
    Respond(Outcome),
}

/// A [`ConfirmAction`] as mathematical values.
pub enum ConfirmActionView {
    FindSubscriber { subscription_token: Seq<char> },
    ConfirmSubscriber(SubscriberId),
    Respond(OutcomeView),
}

impl View for ConfirmAction {
    type V = ConfirmActionView;

    open spec fn view(&self) -> ConfirmActionView {
        match self {
            ConfirmAction::FindSubscriber { subscription_token } =>
                ConfirmActionView::FindSubscriber { subscription_token: subscription_token@ },
            ConfirmAction::ConfirmSubscriber(id) => ConfirmActionView::ConfirmSubscriber(*id),
            ConfirmAction::Respond(outcome) => ConfirmActionView::Respond(outcome@),
        }
    }
}

/// The report of a lookup that failed in the store.
pub open spec fn lookup_report(error: StorageError) -> ErrorReportView {
    storage_report(RetrieveSubscriberIdError::text(), error.report()).context(
        "Failed to retrieve subscriber id from database."@,
    )
}

/// The report of an update that failed in the store.
pub open spec fn update_report(error: StorageError) -> ErrorReportView {
    storage_report("Failed to confirm subscription in database."@, error.report())
}

/// The machine: where it goes from `state` on `event`, and what it asks for.
///
/// A token that is bound to no subscriber is answered as unauthorized, and
/// nothing is written. A storage failure in either step is a server error.
pub open spec fn confirm_transition(
    state: ConfirmState,
    event: ConfirmEvent,
) -> (ConfirmState, ConfirmActionView) {
    match state {
        ConfirmState::Start => match event {
            ConfirmEvent::Requested(parameters) => (
                ConfirmState::LookingUp,
                ConfirmActionView::FindSubscriber {
                    subscription_token: parameters.subscription_token@,
                },
            ),
            _ => refuse(),
        },
        ConfirmState::LookingUp => match event {
            ConfirmEvent::Found(None) => (
                ConfirmState::Done,
                ConfirmActionView::Respond(OutcomeView::Unauthorized),
            ),
            ConfirmEvent::Found(Some(subscriber_id)) => (
                ConfirmState::Confirming,
                ConfirmActionView::ConfirmSubscriber(subscriber_id),
            ),
            ConfirmEvent::Failed(error) => fail(lookup_report(error)),
            _ => refuse(),
        },
        ConfirmState::Confirming => match event {
            ConfirmEvent::Completed => (
                ConfirmState::Done,
                ConfirmActionView::Respond(OutcomeView::Success),
            ),
            ConfirmEvent::Failed(error) => fail(update_report(error)),
            _ => refuse(),
        },
        ConfirmState::Done => refuse(),
    }
}

/// The step that answers with a server error.
pub open spec fn fail(report: ErrorReportView) -> (ConfirmState, ConfirmActionView) {
    (ConfirmState::Done, ConfirmActionView::Respond(OutcomeView::ServerError(report)))
}

/// The step that answers with a server error because the event makes no
/// sense where the machine stands.
pub open spec fn refuse() -> (ConfirmState, ConfirmActionView) {
    fail(unexpected_event_report())
}

/// The answer to a failure of storage.
fn answer_unexpected(report: ErrorReport) -> (outcome: Outcome)
    ensures
        outcome@ == OutcomeView::ServerError(report@),
{
    Outcome::from_confirmation_error(SubscriptionConfirmationError::UnexpectedError(report))
}

/// Answers an event that makes no sense where the machine stands.
fn refuse_step() -> (next: (ConfirmState, ConfirmAction))
    ensures
        (next.0, next.1@) == refuse(),
{
    let report = ErrorReport::new(
        "Received an event that does not answer the pending action.".to_owned(),
    );
    (ConfirmState::Done, ConfirmAction::Respond(answer_unexpected(report)))
}

/// One step of the machine. Hand it the state it returned last and what came
/// of the action it asked for; perform the action it returns; stop when that
/// action is `Respond`.
pub fn confirm(state: ConfirmState, event: ConfirmEvent) -> (next: (ConfirmState, ConfirmAction))
    ensures
        (next.0, next.1@) == confirm_transition(state, event),
        next.1@ is Respond <==> next.0 is Done,
        next.0.remaining_steps() < state.remaining_steps() || state is Done,
{
    match state {
        ConfirmState::Start => match event {
            ConfirmEvent::Requested(parameters) => (
                ConfirmState::LookingUp,
                ConfirmAction::FindSubscriber {
                    subscription_token: parameters.subscription_token,
                },
            ),
            _ => refuse_step(),
        },
        ConfirmState::LookingUp => match event {
            ConfirmEvent::Found(None) => (
                ConfirmState::Done,
                ConfirmAction::Respond(Outcome::Unauthorized),
            ),
            ConfirmEvent::Found(Some(subscriber_id)) => (
                ConfirmState::Confirming,
                ConfirmAction::ConfirmSubscriber(subscriber_id),
            ),
            ConfirmEvent::Failed(error) => {
                let report = RetrieveSubscriberIdError(error).report().context(
                    "Failed to retrieve subscriber id from database.",
                );
                (ConfirmState::Done, ConfirmAction::Respond(answer_unexpected(report)))
            },
            _ => refuse_step(),
        },
        ConfirmState::Confirming => match event {
            ConfirmEvent::Completed => (
                ConfirmState::Done,
                ConfirmAction::Respond(Outcome::Success),
            ),
            ConfirmEvent::Failed(error) => {
                let report = report_storage_failure(
                    "Failed to confirm subscription in database.",
                    &error,
                );
                (ConfirmState::Done, ConfirmAction::Respond(answer_unexpected(report)))
            },
            _ => refuse_step(),
        },
        ConfirmState::Done => refuse_step(),
    }
}

/// The update is asked for only for the subscriber that the lookup found,
/// so a token that is bound to no subscriber leads to no write.
pub proof fn lemma_update_follows_lookup(state: ConfirmState, event: ConfirmEvent)
    requires
        confirm_transition(state, event).1 is ConfirmSubscriber,
    ensures
        state is LookingUp,
        event matches ConfirmEvent::Found(Some(subscriber_id)) && confirm_transition(
            state,
            event,
        ).1 == ConfirmActionView::ConfirmSubscriber(subscriber_id),
{
}

} // verus!
