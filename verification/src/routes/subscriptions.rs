//! Creating a subscription: insert the pending subscriber, bind a fresh
//! token to it, mail the confirmation link, and commit only when all of
//! that has succeeded.

use crate::domain::rejection;
use crate::domain::NewSubscriber;
use crate::domain::NewSubscriberView;
use crate::email_client::dispatch_message;
use crate::email_client::email_request;
use crate::email_client::failure_of;
use crate::email_client::is_accepted;
use crate::email_client::joined_url;
use crate::email_client::DispatchError;
use crate::email_client::DispatchFailure;
use crate::email_client::EmailClient;
use crate::email_client::EmailClientView;
use crate::email_client::EmailRequest;
use crate::email_client::EmailRequestView;
use crate::email_client::ProviderReply;
use crate::errors::report_storage_failure;
use crate::errors::storage_report;
use crate::errors::ErrorReport;
use crate::errors::ErrorReportView;
use crate::errors::StoreTokenError;
use crate::errors::SubscribeError;
use crate::outcome::Outcome;
use crate::outcome::OutcomeView;
use crate::store::is_version_4;
use crate::store::new_subscriber_id;
use crate::store::now_micros;
use crate::store::pending_subscriber;
use crate::store::StorageError;
use crate::store::Subscriber;
use crate::store::SubscriberId;
use crate::store::SubscriberView;
use crate::token::generate_subscription_token;
use crate::token::is_subscription_token;
use vstd::prelude::*;
use vstd::string::StringExecFns;

verus! {

/// The submitted form.
#[derive(Debug, PartialEq, Eq)]
pub struct FormData {
    pub name: String,
    pub email: String,
}

/// The link that confirms the subscription behind `token`.
pub open spec fn confirmation_link(base_url: Seq<char>, token: Seq<char>) -> Seq<char> {
    base_url + "/subscriptions/confirm?subscription_token="@ + token
}

/// The HTML body of the confirmation email.
pub open spec fn confirmation_html(link: Seq<char>) -> Seq<char> {
    "Welcome to our newsletter!<br />Click <a href=\""@ + link
        + "\">here</a> to confirm your subscription."@
}

/// The plain-text body of the confirmation email.
pub open spec fn confirmation_text(link: Seq<char>) -> Seq<char> {
    "Welcome to our newsletter!\nVisit "@ + link + " to confirm your subscription."@
}

/// The request that mails the confirmation link for `token` to `recipient`.
pub open spec fn confirmation_request(
    client: EmailClientView,
    url: Seq<char>,
    recipient: Seq<char>,
    base_url: Seq<char>,
    token: Seq<char>,
) -> EmailRequestView {
    email_request(
        client,
        url,
        recipient,
        "Welcome"@,
        confirmation_html(confirmation_link(base_url, token)),
        confirmation_text(confirmation_link(base_url, token)),
    )
}

/// Prepares the confirmation email for `new_subscriber`: a welcome message
/// whose link leads back to `base_url` with `subscription_token` as its
/// query parameter.
///
/// Fails exactly when the client cannot resolve the provider's endpoint.
pub fn send_confirmation_email(
    email_client: &EmailClient,
    new_subscriber: NewSubscriber,
    base_url: &str,
    subscription_token: &str,
) -> (prepared: Result<EmailRequest, DispatchError>)
    ensures
        match prepared {
            Ok(request) => joined_url(email_client@.base_url, "email"@) == Some(request@.url)
                && request@ == confirmation_request(
                email_client@,
                request@.url,
                new_subscriber@.email,
                base_url@,
                subscription_token@,
            ),
            Err(error) => joined_url(email_client@.base_url, "email"@) is None
                && error.failure() is MalformedEndpoint,
        },
{
    let mut confirmation_link = base_url.to_owned();
    confirmation_link.append("/subscriptions/confirm?subscription_token=");
    confirmation_link.append(subscription_token);
    let mut html_body = "Welcome to our newsletter!<br />Click <a href=\"".to_owned();
    html_body.append(confirmation_link.as_str());
    html_body.append("\">here</a> to confirm your subscription.");
    let mut plain_text_body = "Welcome to our newsletter!\nVisit ".to_owned();
    plain_text_body.append(confirmation_link.as_str());
    plain_text_body.append(" to confirm your subscription.");
    email_client.send_email(
        new_subscriber.email,
        "Welcome",
        html_body.as_str(),
        plain_text_body.as_str(),
    )
}

/// A subscription in the making: the validated input and the values drawn
/// for it.
#[derive(Debug)]
pub struct Draft {
    pub new_subscriber: NewSubscriber,
    pub subscriber_id: SubscriberId,
    pub subscribed_at: i64,
    pub subscription_token: String,
}

/// A [`Draft`] as mathematical values.
pub struct DraftView {
    pub new_subscriber: NewSubscriberView,
    pub subscriber_id: SubscriberId,
    pub subscribed_at: i64,
    pub subscription_token: Seq<char>,
}

impl View for Draft {
    type V = DraftView;

    open spec fn view(&self) -> DraftView {
        DraftView {
            new_subscriber: self.new_subscriber@,
            subscriber_id: self.subscriber_id,
            subscribed_at: self.subscribed_at,
            subscription_token: self.subscription_token@,
        }
    }
}

impl DraftView {
    /// The row that this draft is inserted as.
    pub open spec fn row(self) -> SubscriberView {
        pending_subscriber(
            self.subscriber_id,
            self.new_subscriber.name,
            self.new_subscriber.email,
            self.subscribed_at,
        )
    }
}

/// The values drawn for one subscription.
pub struct Fresh {
    pub subscriber_id: SubscriberId,
    pub subscribed_at: i64,
    pub subscription_token: Seq<char>,
}

impl Fresh {
    /// What holds of every drawing: the id is a random UUID and the token
    /// has the shape of a confirmation token.
    pub open spec fn plausible(self) -> bool {
        is_version_4(self.subscriber_id.0) && is_subscription_token(self.subscription_token)
    }
}

/// How far one attempt to create a subscription has come. Each state names
/// the action whose result is awaited.
#[derive(Debug)]
pub enum SubscribeState {
    /// Nothing has been done; the form is awaited.
    Start,
    /// The transaction is being opened.
    Beginning(Draft),
    /// The subscriber is being inserted.
    Inserting(Draft),
    /// The token is being bound to the subscriber.
    StoringToken(Draft),
    /// The confirmation email is on its way.
    Dispatching,
    /// The transaction is being committed.
    Committing,
    /// The transaction is being rolled back because of the reported failure.
    Aborting(ErrorReport),
    /// The attempt has been answered.
    Done,
}

/// A [`SubscribeState`] as mathematical values.
pub enum SubscribeStateView {
    Start,
    Beginning(DraftView),
    Inserting(DraftView),
    StoringToken(DraftView),
    Dispatching,
    Committing,
    Aborting(ErrorReportView),
    Done,
}

impl View for SubscribeState {
    type V = SubscribeStateView;

    open spec fn view(&self) -> SubscribeStateView {
        match self {
            SubscribeState::Start => SubscribeStateView::Start,
            SubscribeState::Beginning(draft) => SubscribeStateView::Beginning(draft@),
            SubscribeState::Inserting(draft) => SubscribeStateView::Inserting(draft@),
            SubscribeState::StoringToken(draft) => SubscribeStateView::StoringToken(draft@),
            SubscribeState::Dispatching => SubscribeStateView::Dispatching,
            SubscribeState::Committing => SubscribeStateView::Committing,
            SubscribeState::Aborting(report) => SubscribeStateView::Aborting(report@),
            SubscribeState::Done => SubscribeStateView::Done,
        }
    }
}

impl SubscribeStateView {
    /// An upper bound on the actions still to come.
    pub open spec fn remaining_steps(self) -> nat {
        match self {
            SubscribeStateView::Start => 7,
            SubscribeStateView::Beginning(_) => 6,
            SubscribeStateView::Inserting(_) => 5,
            SubscribeStateView::StoringToken(_) => 4,
            SubscribeStateView::Dispatching => 3,
            SubscribeStateView::Committing => 2,
            SubscribeStateView::Aborting(_) => 1,
            SubscribeStateView::Done => 0,
        }
    }
}

/// What the machine is told: the form that starts it, or what came of the
/// action it requested last.
#[derive(Debug)]
pub enum SubscribeEvent {
    /// A form was submitted.
    Submitted(FormData),
    /// The requested storage action succeeded.
    Completed,
    /// The requested storage action failed.
    Failed(StorageError),
    /// The provider's reply to the requested email, or the lack of one.
    Replied(ProviderReply),
}

/// What the machine asks for next.
pub enum SubscribeAction {
    /// Open a transaction.
    Begin,
    /// Insert this row within the transaction.
    InsertSubscriber(Subscriber),
    /// Bind the token to the subscriber within the transaction.
    StoreToken { subscriber_id: SubscriberId, subscription_token: String },
    /// Carry this request to the provider, once.
    SendEmail(EmailRequest),
    /// Commit the transaction.
    Commit,
    /// Roll the transaction back.
    Rollback,
    /// Answer the request; nothing follows.
    Respond(Outcome),
}

/// A [`SubscribeAction`] as mathematical values.
pub enum SubscribeActionView {
    Begin,
    InsertSubscriber(SubscriberView),
    StoreToken { subscriber_id: SubscriberId, subscription_token: Seq<char> },
    SendEmail(EmailRequestView),
    Commit,
    Rollback,
    Respond(OutcomeView),
}

impl View for SubscribeAction {
    type V = SubscribeActionView;

    open spec fn view(&self) -> SubscribeActionView {
        match self {
            SubscribeAction::Begin => SubscribeActionView::Begin,
            SubscribeAction::InsertSubscriber(row) => SubscribeActionView::InsertSubscriber(row@),
            SubscribeAction::StoreToken { subscriber_id, subscription_token } =>
                SubscribeActionView::StoreToken {
                    subscriber_id: *subscriber_id,
                    subscription_token: subscription_token@,
                },
            SubscribeAction::SendEmail(request) => SubscribeActionView::SendEmail(request@),
            SubscribeAction::Commit => SubscribeActionView::Commit,
            SubscribeAction::Rollback => SubscribeActionView::Rollback,
            SubscribeAction::Respond(outcome) => SubscribeActionView::Respond(outcome@),
        }
    }
}

/// The report of an event that does not answer the pending action.
pub open spec fn unexpected_event_report() -> ErrorReportView {
    ErrorReportView {
        message: "Received an event that does not answer the pending action."@,
        causes: Seq::empty(),
    }
}

/// The report of a failed dispatch.
pub open spec fn dispatch_report(failure: DispatchFailure) -> ErrorReportView {
    (ErrorReportView { message: dispatch_message(failure), causes: Seq::empty() }).context(
        "Failed to send a confirmation email."@,
    )
}

/// The step that answers with a server error because the event makes no
/// sense where the machine stands.
pub open spec fn refuse() -> (SubscribeStateView, SubscribeActionView) {
    (
        SubscribeStateView::Done,
        SubscribeActionView::Respond(OutcomeView::ServerError(unexpected_event_report())),
    )
}

/// The step that gives the attempt up: roll back, then report.
pub open spec fn abort(report: ErrorReportView) -> (SubscribeStateView, SubscribeActionView) {
    (SubscribeStateView::Aborting(report), SubscribeActionView::Rollback)
}

/// The step that answers with a server error.
pub open spec fn fail(report: ErrorReportView) -> (SubscribeStateView, SubscribeActionView) {
    (SubscribeStateView::Done, SubscribeActionView::Respond(OutcomeView::ServerError(report)))
}

/// The machine: where it goes from `state` on `event`, and what it asks for.
///
/// `fresh` is read in the first step only, where a valid form becomes a
/// draft. Failures before the transaction is open and after it has ended are
/// answered at once; failures in between roll the transaction back first.
pub open spec fn subscribe_transition(
    state: SubscribeStateView,
    event: SubscribeEvent,
    client: EmailClientView,
    base_url: Seq<char>,
    fresh: Fresh,
) -> (SubscribeStateView, SubscribeActionView) {
    match state {
        SubscribeStateView::Start => match event {
            SubscribeEvent::Submitted(form) => match rejection(form.name@, form.email@) {
                Some(reason) => (
                    SubscribeStateView::Done,
                    SubscribeActionView::Respond(OutcomeView::ClientError(reason)),
                ),
                None => (
                    SubscribeStateView::Beginning(
                        DraftView {
                            new_subscriber: NewSubscriberView {
                                email: form.email@,
                                name: form.name@,
                            },
                            subscriber_id: fresh.subscriber_id,
                            subscribed_at: fresh.subscribed_at,
                            subscription_token: fresh.subscription_token,
                        },
                    ),
                    SubscribeActionView::Begin,
                ),
            },
            _ => refuse(),
        },
        SubscribeStateView::Beginning(draft) => match event {
            SubscribeEvent::Completed => (
                SubscribeStateView::Inserting(draft),
                SubscribeActionView::InsertSubscriber(draft.row()),
            ),
            SubscribeEvent::Failed(error) => fail(
                storage_report("Failed to begin a transaction."@, error.report()),
            ),
            _ => refuse(),
        },
        SubscribeStateView::Inserting(draft) => match event {
            SubscribeEvent::Completed => (
                SubscribeStateView::StoringToken(draft),
                SubscribeActionView::StoreToken {
                    subscriber_id: draft.subscriber_id,
                    subscription_token: draft.subscription_token,
                },
            ),
            SubscribeEvent::Failed(error) => abort(
                storage_report("Failed to insert new subscriber in the database."@, error.report()),
            ),
            _ => abort(unexpected_event_report()),
        },
        SubscribeStateView::StoringToken(draft) => match event {
            SubscribeEvent::Completed => match joined_url(client.base_url, "email"@) {
                Some(url) => (
                    SubscribeStateView::Dispatching,
                    SubscribeActionView::SendEmail(
                        confirmation_request(
                            client,
                            url,
                            draft.new_subscriber.email,
                            base_url,
                            draft.subscription_token,
                        ),
                    ),
                ),
                None => abort(dispatch_report(DispatchFailure::MalformedEndpoint)),
            },
            SubscribeEvent::Failed(error) => abort(
                storage_report(StoreTokenError::text(), error.report()).context(
                    "Failed to store the confirmation token for a new subscriber."@,
                ),
            ),
            _ => abort(unexpected_event_report()),
        },
        SubscribeStateView::Dispatching => match event {
            SubscribeEvent::Replied(reply) => if is_accepted(reply) {
                (SubscribeStateView::Committing, SubscribeActionView::Commit)
            } else {
                abort(dispatch_report(failure_of(reply)))
            },
            _ => abort(unexpected_event_report()),
        },
        SubscribeStateView::Committing => match event {
            SubscribeEvent::Completed => (
                SubscribeStateView::Done,
                SubscribeActionView::Respond(OutcomeView::Success),
            ),
            SubscribeEvent::Failed(error) => fail(
                storage_report(
                    "Failed to commit the transaction that stores a new subscriber."@,
                    error.report(),
                ),
            ),
            _ => refuse(),
        },
        SubscribeStateView::Aborting(report) => fail(report),
        SubscribeStateView::Done => refuse(),
    }
}

/// The answer to a failure of storage or dispatch.
fn answer_unexpected(report: ErrorReport) -> (outcome: Outcome)
    ensures
        outcome@ == OutcomeView::ServerError(report@),
{
    Outcome::from_subscribe_error(SubscribeError::UnexpectedError(report))
}

/// Answers an event that makes no sense where the machine stands.
fn refuse_step() -> (next: (SubscribeState, SubscribeAction))
    ensures
        (next.0@, next.1@) == refuse(),
{
    let report = ErrorReport::new(
        "Received an event that does not answer the pending action.".to_owned(),
    );
    (SubscribeState::Done, SubscribeAction::Respond(answer_unexpected(report)))
}

/// Gives the attempt up over an event that makes no sense inside the
/// transaction.
fn abort_unexpected() -> (next: (SubscribeState, SubscribeAction))
    ensures
        (next.0@, next.1@) == abort(unexpected_event_report()),
{
    let report = ErrorReport::new(
        "Received an event that does not answer the pending action.".to_owned(),
    );
    (SubscribeState::Aborting(report), SubscribeAction::Rollback)
}

/// Gives the attempt up over a failed dispatch.
fn abort_dispatch(error: DispatchError) -> (next: (SubscribeState, SubscribeAction))
    ensures
        (next.0@, next.1@) == abort(dispatch_report(error.failure())),
{
    let report = ErrorReport::new(error.message()).context("Failed to send a confirmation email.");
    (SubscribeState::Aborting(report), SubscribeAction::Rollback)
}

/// The first step for a form that passed validation: the draft is made and
/// the transaction asked for.
fn begin_with(
    new_subscriber: NewSubscriber,
    subscriber_id: SubscriberId,
    subscribed_at: i64,
    subscription_token: String,
) -> (next: (SubscribeState, SubscribeAction))
    ensures
        next.0@ == SubscribeStateView::Beginning(
            DraftView {
                new_subscriber: new_subscriber@,
                subscriber_id,
                subscribed_at,
                subscription_token: subscription_token@,
            },
        ),
        next.1@ == SubscribeActionView::Begin,
{
    (
        SubscribeState::Beginning(
            Draft { new_subscriber, subscriber_id, subscribed_at, subscription_token },
        ),
        SubscribeAction::Begin,
    )
}

/// The first step for a form that failed validation: it is answered at
/// once.
fn reject(reason: String) -> (next: (SubscribeState, SubscribeAction))
    ensures
        next.0@ == SubscribeStateView::Done,
        next.1@ == SubscribeActionView::Respond(OutcomeView::ClientError(reason@)),
{
    (
        SubscribeState::Done,
        SubscribeAction::Respond(
            Outcome::from_subscribe_error(SubscribeError::ValidationError(reason)),
        ),
    )
}

/// Every step but the first on a submitted form. None of them reads a
/// drawing.
fn advance(
    state: SubscribeState,
    event: SubscribeEvent,
    email_client: &EmailClient,
    base_url: &str,
) -> (next: (SubscribeState, SubscribeAction))
    requires
        !(state@ is Start && event is Submitted),
    ensures
        forall|fresh: Fresh|
            (next.0@, next.1@) == #[trigger] subscribe_transition(
                state@,
                event,
                email_client@,
                base_url@,
                fresh,
            ),
{
    match state {
        SubscribeState::Start => refuse_step(),
        SubscribeState::Beginning(draft) => match event {
            SubscribeEvent::Completed => {
                let row = Subscriber::pending(
                    draft.subscriber_id,
                    &draft.new_subscriber,
                    draft.subscribed_at,
                );
                (SubscribeState::Inserting(draft), SubscribeAction::InsertSubscriber(row))
            },
            SubscribeEvent::Failed(error) => (
                SubscribeState::Done,
                SubscribeAction::Respond(
                    answer_unexpected(
                        report_storage_failure("Failed to begin a transaction.", &error),
                    ),
                ),
            ),
            _ => refuse_step(),
        },
        SubscribeState::Inserting(draft) => match event {
            SubscribeEvent::Completed => {
                let action = SubscribeAction::StoreToken {
                    subscriber_id: draft.subscriber_id,
                    subscription_token: draft.subscription_token.clone(),
                };
                (SubscribeState::StoringToken(draft), action)
            },
            SubscribeEvent::Failed(error) => (
                SubscribeState::Aborting(
                    report_storage_failure(
                        "Failed to insert new subscriber in the database.",
                        &error,
                    ),
                ),
                SubscribeAction::Rollback,
            ),
            _ => abort_unexpected(),
        },
        SubscribeState::StoringToken(draft) => match event {
            SubscribeEvent::Completed => {
                match send_confirmation_email(
                    email_client,
                    draft.new_subscriber,
                    base_url,
                    draft.subscription_token.as_str(),
                ) {
                    Ok(request) => (SubscribeState::Dispatching, SubscribeAction::SendEmail(request)),
                    Err(error) => abort_dispatch(error),
                }
            },
            SubscribeEvent::Failed(error) => (
                SubscribeState::Aborting(
                    StoreTokenError(error).report().context(
                        "Failed to store the confirmation token for a new subscriber.",
                    ),
                ),
                SubscribeAction::Rollback,
            ),
            _ => abort_unexpected(),
        },
        SubscribeState::Dispatching => match event {
            SubscribeEvent::Replied(reply) => match EmailClient::dispatch_result(reply) {
                Ok(()) => (SubscribeState::Committing, SubscribeAction::Commit),
                Err(error) => abort_dispatch(error),
            },
            _ => abort_unexpected(),
        },
        SubscribeState::Committing => match event {
            SubscribeEvent::Completed => (
                SubscribeState::Done,
                SubscribeAction::Respond(Outcome::Success),
            ),
            SubscribeEvent::Failed(error) => (
                SubscribeState::Done,
                SubscribeAction::Respond(
                    answer_unexpected(
                        report_storage_failure(
                            "Failed to commit the transaction that stores a new subscriber.",
                            &error,
                        ),
                    ),
                ),
            ),
            _ => refuse_step(),
        },
        SubscribeState::Aborting(report) => (
            SubscribeState::Done,
            SubscribeAction::Respond(answer_unexpected(report)),
        ),
        SubscribeState::Done => refuse_step(),
    }
}

/// One step of the machine with the drawn values supplied by the caller.
///
/// The values are read in the first step only; see [`subscribe`] for the
/// step that draws them itself.
pub fn subscribe_with(
    state: SubscribeState,
    event: SubscribeEvent,
    email_client: &EmailClient,
    base_url: &str,
    subscriber_id: SubscriberId,
    subscribed_at: i64,
    subscription_token: String,
) -> (next: (SubscribeState, SubscribeAction))
    ensures
        (next.0@, next.1@) == subscribe_transition(
            state@,
            event,
            email_client@,
            base_url@,
            Fresh { subscriber_id, subscribed_at, subscription_token: subscription_token@ },
        ),
{
    match (state, event) {
        (SubscribeState::Start, SubscribeEvent::Submitted(form)) => {
            match NewSubscriber::parse(form.name, form.email) {
                Ok(new_subscriber) => begin_with(
                    new_subscriber,
                    subscriber_id,
                    subscribed_at,
                    subscription_token,
                ),
                Err(reason) => reject(reason),
            }
        },
        (state, event) => advance(state, event, email_client, base_url),
    }
}

/// One step of the machine. Hand it the state it returned last and what came
/// of the action it asked for; perform the action it returns; stop when that
/// action is `Respond`.
///
/// For a submitted form that passes validation the step draws the
/// subscriber's id, the time of subscription and the confirmation token.
/// Whatever it draws is plausible, and the step is the transition for some
/// such drawing; no other step depends on one.
pub fn subscribe(
    state: SubscribeState,
    event: SubscribeEvent,
    email_client: &EmailClient,
    base_url: &str,
) -> (next: (SubscribeState, SubscribeAction))
    ensures
        exists|fresh: Fresh| #[trigger]
            fresh.plausible() && (next.0@, next.1@) == subscribe_transition(
                state@,
                event,
                email_client@,
                base_url@,
                fresh,
            ),
        next.1@ is Respond <==> next.0@ is Done,
        next.0@.remaining_steps() < state@.remaining_steps() || state@ is Done,
{
    let ghost some = Fresh {
        subscriber_id: SubscriberId(0x0000_0000_0000_4000_8000_0000_0000_0000),
        subscribed_at: 0,
        subscription_token: Seq::new(25, |i: int| 'a'),
    };
    proof {
        assert(0x0000_0000_0000_4000_8000_0000_0000_0000u128
            & 0x0000_0000_0000_f000_c000_0000_0000_0000
            == 0x0000_0000_0000_4000_8000_0000_0000_0000) by (bit_vector);
        assert(some.plausible());
    }
    match (state, event) {
        (SubscribeState::Start, SubscribeEvent::Submitted(form)) => {
            match NewSubscriber::parse(form.name, form.email) {
                Ok(new_subscriber) => {
                    let subscriber_id = new_subscriber_id();
                    let subscribed_at = now_micros();
                    let subscription_token = generate_subscription_token();
                    let ghost fresh = Fresh {
                        subscriber_id,
                        subscribed_at,
                        subscription_token: subscription_token@,
                    };
                    let next = begin_with(
                        new_subscriber,
                        subscriber_id,
                        subscribed_at,
                        subscription_token,
                    );
                    assert(fresh.plausible() && (next.0@, next.1@) == subscribe_transition(
                        state@,
                        event,
                        email_client@,
                        base_url@,
                        fresh,
                    ));
                    next
                },
                Err(reason) => {
                    let next = reject(reason);
                    assert((next.0@, next.1@) == subscribe_transition(
                        state@,
                        event,
                        email_client@,
                        base_url@,
                        some,
                    ));
                    next
                },
            }
        },
        (state, event) => {
            let next = advance(state, event, email_client, base_url);
            assert((next.0@, next.1@) == subscribe_transition(
                state@,
                event,
                email_client@,
                base_url@,
                some,
            ));
            next
        },
    }
}

/// Every step uses the machine up: it either answers, and is done, or moves
/// to a state with fewer steps to come. No run is longer than seven steps.
pub proof fn lemma_steps_run_out(
    state: SubscribeStateView,
    event: SubscribeEvent,
    client: EmailClientView,
    base_url: Seq<char>,
    fresh: Fresh,
)
    ensures
        ({
            let next = subscribe_transition(state, event, client, base_url, fresh);
            &&& next.1 is Respond <==> next.0 is Done
            &&& next.0.remaining_steps() < state.remaining_steps() || state is Done
        }),
{
}

/// The email is asked for only once the token has been stored, so at most
/// once in a run.
pub proof fn lemma_email_follows_token(
    state: SubscribeStateView,
    event: SubscribeEvent,
    client: EmailClientView,
    base_url: Seq<char>,
    fresh: Fresh,
)
    requires
        subscribe_transition(state, event, client, base_url, fresh).1 is SendEmail,
    ensures
        state is StoringToken,
        event is Completed,
        subscribe_transition(state, event, client, base_url, fresh).0 is Dispatching,
{
}

/// The commit is asked for only in answer to an email that the provider
/// accepted.
pub proof fn lemma_commit_follows_acceptance(
    state: SubscribeStateView,
    event: SubscribeEvent,
    client: EmailClientView,
    base_url: Seq<char>,
    fresh: Fresh,
)
    requires
        subscribe_transition(state, event, client, base_url, fresh).1 is Commit,
    ensures
        state is Dispatching,
        event matches SubscribeEvent::Replied(reply) && is_accepted(reply),
{
}

/// Success is answered only once the commit has completed.
pub proof fn lemma_success_follows_commit(
    state: SubscribeStateView,
    event: SubscribeEvent,
    client: EmailClientView,
    base_url: Seq<char>,
    fresh: Fresh,
)
    requires
        subscribe_transition(state, event, client, base_url, fresh).1
            == SubscribeActionView::Respond(OutcomeView::Success),
    ensures
        state is Committing,
        event is Completed,
{
}

/// An email that the provider did not accept is followed by a rollback, and
/// the rollback, however it ends, by a server error.
pub proof fn lemma_failed_dispatch_is_rolled_back(
    reply: ProviderReply,
    after: SubscribeEvent,
    client: EmailClientView,
    base_url: Seq<char>,
    fresh: Fresh,
)
    requires
        !is_accepted(reply),
    ensures
        ({
            let first = subscribe_transition(
                SubscribeStateView::Dispatching,
                SubscribeEvent::Replied(reply),
                client,
                base_url,
                fresh,
            );
            let second = subscribe_transition(first.0, after, client, base_url, fresh);
            &&& first.1 is Rollback
            &&& second.0 is Done
            &&& second.1 == SubscribeActionView::Respond(
                OutcomeView::ServerError(dispatch_report(failure_of(reply))),
            )
        }),
{
}

/// A form that is rejected is answered at once: the machine asks for no
/// action on the store.
pub proof fn lemma_rejected_form_touches_nothing(
    form: FormData,
    client: EmailClientView,
    base_url: Seq<char>,
    fresh: Fresh,
)
    requires
        rejection(form.name@, form.email@) is Some,
    ensures
        subscribe_transition(
            SubscribeStateView::Start,
            SubscribeEvent::Submitted(form),
            client,
            base_url,
            fresh,
        ) == (
            SubscribeStateView::Done,
            SubscribeActionView::Respond(
                OutcomeView::ClientError(rejection(form.name@, form.email@)->0),
            ),
        ),
{
}

} // verus!
