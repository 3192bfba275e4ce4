//! The two operations run to completion against the in-memory store, and
//! what is true of every such run.
//!
//! Each run is driven by the machine of its route: the action the machine
//! asks for is performed on the store, and what came of it is handed back,
//! until the machine answers. The provider is simulated: its reply to the
//! one email that may be sent is given in advance.

use crate::domain::lemma_malformed_email_is_invalid;
use crate::domain::rejection;
use crate::domain::NewSubscriberView;
use crate::email_client::failure_of;
use crate::email_client::is_accepted;
use crate::email_client::joined_url;
use crate::email_client::DispatchFailure;
use crate::email_client::EmailClient;
use crate::email_client::EmailClientView;
use crate::email_client::EmailRequest;
use crate::email_client::EmailRequestView;
use crate::email_client::ProviderReply;
use crate::errors::storage_report;
use crate::errors::StoreTokenError;
use crate::outcome::Outcome;
use crate::outcome::OutcomeView;
use crate::routes::subscription_confirmation::confirm;
use crate::routes::subscription_confirmation::ConfirmAction;
use crate::routes::subscription_confirmation::ConfirmActionView;
use crate::routes::subscription_confirmation::ConfirmEvent;
use crate::routes::subscription_confirmation::ConfirmState;
use crate::routes::subscription_confirmation::Parameters;
use crate::routes::subscriptions::confirmation_request;
use crate::routes::subscriptions::dispatch_report;
use crate::routes::subscriptions::subscribe;
use crate::routes::subscriptions::subscribe_transition;
use crate::routes::subscriptions::subscribe_with;
use crate::routes::subscriptions::DraftView;
use crate::routes::subscriptions::FormData;
use crate::routes::subscriptions::Fresh;
use crate::routes::subscriptions::SubscribeAction;
use crate::routes::subscriptions::SubscribeActionView;
use crate::routes::subscriptions::SubscribeEvent;
use crate::routes::subscriptions::SubscribeState;
use crate::routes::subscriptions::SubscribeStateView;
use crate::store::confirm_subscriber;
use crate::store::get_subscriber_id_from_token;
use crate::store::keeps;
use crate::store::store_token;
use crate::store::subscriber_refused;
use crate::store::token_refused;
use crate::store::StorageError;
use crate::store::StoreView;
use crate::store::SubscriberId;
use crate::store::SubscriptionStatus;
use crate::store::SubscriptionStore;
use crate::store::Transaction;
use vstd::prelude::*;

verus! {

/// How an attempt to create a subscription ended: the store it left, the
/// answer it gave, and the email it sent, if it came to that.
pub struct Settled {
    pub store: StoreView,
    pub outcome: OutcomeView,
    pub sent: Option<EmailRequestView>,
}

/// The view of an optional request.
pub open spec fn request_view(request: Option<EmailRequest>) -> Option<EmailRequestView> {
    match request {
        Some(request) => Some(request@),
        None => None,
    }
}

/// What creating a subscription comes to.
///
/// Malformed input is refused before the store is touched. After that the
/// subscriber is inserted, the token bound and the email sent, in this
/// order, and the first of these to fail ends the attempt with a server
/// error and the store as it was. Only when the provider has accepted the
/// email do the two rows become part of the store.
pub open spec fn subscription_result(
    store: StoreView,
    name: Seq<char>,
    email: Seq<char>,
    fresh: Fresh,
    client: EmailClientView,
    base_url: Seq<char>,
    reply: ProviderReply,
) -> Settled {
    let draft = draft_of(name, email, fresh);
    let inserted = store.with_subscriber(draft.row());
    let bound = inserted.with_token(fresh.subscription_token, fresh.subscriber_id);
    match rejection(name, email) {
        Some(reason) => Settled { store, outcome: OutcomeView::ClientError(reason), sent: None },
        None => if !store.accepts_subscriber(fresh.subscriber_id) {
            Settled {
                store,
                outcome: OutcomeView::ServerError(
                    storage_report(
                        "Failed to insert new subscriber in the database."@,
                        subscriber_refused(),
                    ),
                ),
                sent: None,
            }
        } else if !inserted.accepts_token(fresh.subscription_token, fresh.subscriber_id) {
            Settled {
                store,
                outcome: OutcomeView::ServerError(
                    storage_report(StoreTokenError::text(), token_refused()).context(
                        "Failed to store the confirmation token for a new subscriber."@,
                    ),
                ),
                sent: None,
            }
        } else {
            match joined_url(client.base_url, "email"@) {
                None => Settled {
                    store,
                    outcome: OutcomeView::ServerError(
                        dispatch_report(DispatchFailure::MalformedEndpoint),
                    ),
                    sent: None,
                },
                Some(url) => {
                    let request = confirmation_request(
                        client,
                        url,
                        email,
                        base_url,
                        fresh.subscription_token,
                    );
                    if is_accepted(reply) {
                        Settled {
                            store: bound,
                            outcome: OutcomeView::Success,
                            sent: Some(request),
                        }
                    } else {
                        Settled {
                            store,
                            outcome: OutcomeView::ServerError(dispatch_report(failure_of(reply))),
                            sent: Some(request),
                        }
                    }
                },
            }
        },
    }
}

/// The draft that a valid form and a drawing make.
pub open spec fn draft_of(name: Seq<char>, email: Seq<char>, fresh: Fresh) -> DraftView {
    DraftView {
        new_subscriber: NewSubscriberView { email, name },
        subscriber_id: fresh.subscriber_id,
        subscribed_at: fresh.subscribed_at,
        subscription_token: fresh.subscription_token,
    }
}

/// What confirming a token comes to: a token bound to no subscriber is
/// unauthorized and changes nothing; any other confirms its subscriber.
pub open spec fn confirmation_result(
    store: StoreView,
    token: Seq<char>,
) -> (StoreView, OutcomeView) {
    match store.subscriber_of(token) {
        None => (store, OutcomeView::Unauthorized),
        Some(subscriber_id) => (store.with_confirmed(subscriber_id), OutcomeView::Success),
    }
}

/// Who holds the store during a run: the run itself, or the transaction it
/// has opened.
enum Holder {
    Idle(SubscriptionStore),
    Open(Transaction),
}

impl Holder {
    /// The store as it stands committed.
    spec fn committed(self) -> StoreView {
        match self {
            Holder::Idle(store) => store@,
            Holder::Open(transaction) => transaction.origin(),
        }
    }

    /// The store as the open transaction would leave it.
    spec fn working(self) -> Option<StoreView> {
        match self {
            Holder::Idle(_) => None,
            Holder::Open(transaction) => Some(transaction@),
        }
    }

    /// Ends whatever is open and hands the store back.
    fn release(self) -> (store: SubscriptionStore)
        ensures
            store@ == self.committed(),
    {
        match self {
            Holder::Idle(store) => store,
            Holder::Open(transaction) => transaction.rollback(),
        }
    }
}

/// The run stands where a run from `origin` must stand in `state`, and
/// leads to `subscription_result` from there.
spec fn on_track(
    state: SubscribeStateView,
    action: SubscribeActionView,
    store: StoreView,
    transaction: Option<StoreView>,
    pending: Option<ProviderReply>,
    sent: Option<EmailRequestView>,
    origin: StoreView,
    name: Seq<char>,
    email: Seq<char>,
    fresh: Fresh,
    client: EmailClientView,
    base_url: Seq<char>,
    reply: ProviderReply,
) -> bool {
    let expected = subscription_result(origin, name, email, fresh, client, base_url, reply);
    let draft = draft_of(name, email, fresh);
    let inserted = origin.with_subscriber(draft.row());
    let bound = inserted.with_token(fresh.subscription_token, fresh.subscriber_id);
    let early = {
        &&& rejection(name, email) is None
        &&& store == origin
        &&& sent is None
        &&& pending == Some(reply)
    };
    match state {
        SubscribeStateView::Start => false,
        SubscribeStateView::Beginning(current) => {
            &&& early
            &&& current == draft
            &&& action is Begin
            &&& transaction is None
        },
        SubscribeStateView::Inserting(current) => {
            &&& early
            &&& current == draft
            &&& action == SubscribeActionView::InsertSubscriber(draft.row())
            &&& transaction == Some(origin)
        },
        SubscribeStateView::StoringToken(current) => {
            &&& early
            &&& current == draft
            &&& action == (SubscribeActionView::StoreToken {
                subscriber_id: fresh.subscriber_id,
                subscription_token: fresh.subscription_token,
            })
            &&& origin.accepts_subscriber(fresh.subscriber_id)
            &&& transaction == Some(inserted)
        },
        SubscribeStateView::Dispatching => {
            &&& early
            &&& origin.accepts_subscriber(fresh.subscriber_id)
            &&& inserted.accepts_token(fresh.subscription_token, fresh.subscriber_id)
            &&& transaction == Some(bound)
            &&& joined_url(client.base_url, "email"@) matches Some(url)
            &&& action == SubscribeActionView::SendEmail(
                confirmation_request(client, url, email, base_url, fresh.subscription_token),
            )
        },
        SubscribeStateView::Committing => {
            &&& action is Commit
            &&& store == origin
            &&& transaction matches Some(working)
            &&& expected == (Settled { store: working, outcome: OutcomeView::Success, sent })
        },
        SubscribeStateView::Aborting(report) => {
            &&& action is Rollback
            &&& store == origin
            &&& expected == (Settled {
                store: origin,
                outcome: OutcomeView::ServerError(report),
                sent,
            })
        },
        SubscribeStateView::Done => {
            &&& action matches SubscribeActionView::Respond(outcome)
            &&& expected == (Settled { store, outcome, sent })
        },
    }
}

/// Runs the machine from where it stands until it answers.
fn drive(
    store: SubscriptionStore,
    state: SubscribeState,
    action: SubscribeAction,
    email_client: &EmailClient,
    base_url: &str,
    reply: ProviderReply,
    Ghost(name): Ghost<Seq<char>>,
    Ghost(email): Ghost<Seq<char>>,
    Ghost(fresh): Ghost<Fresh>,
) -> (result: (SubscriptionStore, Outcome, Option<EmailRequest>))
    requires
        on_track(
            state@,
            action@,
            store@,
            None,
            Some(reply),
            None,
            store@,
            name,
            email,
            fresh,
            email_client@,
            base_url@,
            reply,
        ),
    ensures
        (Settled { store: result.0@, outcome: result.1@, sent: request_view(result.2) })
            == subscription_result(store@, name, email, fresh, email_client@, base_url@, reply),
{
    let ghost origin = store@;
    let mut state = state;
    let mut action = action;
    let mut holder = Holder::Idle(store);
    let mut pending: Option<ProviderReply> = Some(reply);
    let mut sent: Option<EmailRequest> = None;
    loop
        invariant
            origin == store@,
            on_track(
                state@,
                action@,
                holder.committed(),
                holder.working(),
                pending,
                request_view(sent),
                origin,
                name,
                email,
                fresh,
                email_client@,
                base_url@,
                reply,
            ),
        decreases state@.remaining_steps(),
    {
        let event = match action {
            SubscribeAction::Respond(outcome) => {
                return (holder.release(), outcome, sent);
            },
            SubscribeAction::Begin => match holder {
                Holder::Idle(store) => {
                    holder = Holder::Open(store.begin());
                    SubscribeEvent::Completed
                },
                Holder::Open(transaction) => {
                    holder = Holder::Open(transaction);
                    SubscribeEvent::Failed(out_of_turn())
                },
            },
            SubscribeAction::InsertSubscriber(row) => match holder {
                Holder::Open(mut transaction) => {
                    let inserted = transaction.insert(row);
                    holder = Holder::Open(transaction);
                    match inserted {
                        Ok(()) => SubscribeEvent::Completed,
                        Err(error) => SubscribeEvent::Failed(error),
                    }
                },
                Holder::Idle(store) => {
                    holder = Holder::Idle(store);
                    SubscribeEvent::Failed(out_of_turn())
                },
            },
            SubscribeAction::StoreToken { subscriber_id, subscription_token } => match holder {
                Holder::Open(mut transaction) => {
                    let stored = store_token(
                        &mut transaction,
                        subscriber_id,
                        subscription_token.as_str(),
                    );
                    holder = Holder::Open(transaction);
                    match stored {
                        Ok(()) => SubscribeEvent::Completed,
                        Err(error) => SubscribeEvent::Failed(error),
                    }
                },
                Holder::Idle(store) => {
                    holder = Holder::Idle(store);
                    SubscribeEvent::Failed(out_of_turn())
                },
            },
            SubscribeAction::SendEmail(request) => {
                sent = Some(request);
                match pending.take() {
                    Some(reply) => SubscribeEvent::Replied(reply),
                    None => SubscribeEvent::Replied(ProviderReply::TimedOut),
                }
            },
            SubscribeAction::Commit => match holder {
                Holder::Open(transaction) => {
                    holder = Holder::Idle(transaction.commit());
                    SubscribeEvent::Completed
                },
                Holder::Idle(store) => {
                    holder = Holder::Idle(store);
                    SubscribeEvent::Failed(out_of_turn())
                },
            },
            SubscribeAction::Rollback => match holder {
                Holder::Open(transaction) => {
                    holder = Holder::Idle(transaction.rollback());
                    SubscribeEvent::Completed
                },
                Holder::Idle(store) => {
                    holder = Holder::Idle(store);
                    SubscribeEvent::Failed(out_of_turn())
                },
            },
        };
        let next = subscribe(state, event, email_client, base_url);
        state = next.0;
        action = next.1;
    }
}

/// The failure reported for an action that the store is in no state to
/// perform.
fn out_of_turn() -> (error: StorageError)
    ensures
        error is ConnectivityLoss,
        error.report() == out_of_turn_report(),
{
    StorageError::ConnectivityLoss("the store cannot perform this action now".to_owned())
}

/// What the store reports of an action that comes out of turn.
spec fn out_of_turn_report() -> Seq<char> {
    "the store cannot perform this action now"@
}

/// Creates a subscription in `store` with the given id, time and token, and
/// with `reply` as the provider's answer to the confirmation email.
///
/// Returns the answer and the email that was sent, if it came to that.
pub fn create_subscription_with(
    store: &mut SubscriptionStore,
    form: FormData,
    email_client: &EmailClient,
    base_url: &str,
    reply: ProviderReply,
    subscriber_id: SubscriberId,
    subscribed_at: i64,
    subscription_token: String,
) -> (result: (Outcome, Option<EmailRequest>))
    ensures
        (Settled { store: final(store)@, outcome: result.0@, sent: request_view(result.1) })
            == subscription_result(
            old(store)@,
            form.name@,
            form.email@,
            Fresh { subscriber_id, subscribed_at, subscription_token: subscription_token@ },
            email_client@,
            base_url@,
            reply,
        ),
        keeps(old(store)@, final(store)@),
{
    store.well_formed();
    proof {
        lemma_creation_keeps_store(
            store@,
            form.name@,
            form.email@,
            Fresh { subscriber_id, subscribed_at, subscription_token: subscription_token@ },
            email_client@,
            base_url@,
            reply,
        );
    }
    let ghost name = form.name@;
    let ghost email = form.email@;
    let ghost fresh = Fresh {
        subscriber_id,
        subscribed_at,
        subscription_token: subscription_token@,
    };
    let next = subscribe_with(
        SubscribeState::Start,
        SubscribeEvent::Submitted(form),
        email_client,
        base_url,
        subscriber_id,
        subscribed_at,
        subscription_token,
    );
    let settled = drive(
        store.take(),
        next.0,
        next.1,
        email_client,
        base_url,
        reply,
        Ghost(name),
        Ghost(email),
        Ghost(fresh),
    );
    *store = settled.0;
    (settled.1, settled.2)
}

/// Creates a subscription in `store` with `reply` as the provider's answer
/// to the confirmation email. The id, the time and the token are drawn;
/// whatever is drawn, the run ends as [`subscription_result`] says.
///
/// Returns the answer and the email that was sent, if it came to that.
pub fn create_subscription(
    store: &mut SubscriptionStore,
    form: FormData,
    email_client: &EmailClient,
    base_url: &str,
    reply: ProviderReply,
) -> (result: (Outcome, Option<EmailRequest>))
    ensures
        exists|fresh: Fresh| #[trigger]
            fresh.plausible() && (Settled {
                store: final(store)@,
                outcome: result.0@,
                sent: request_view(result.1),
            }) == subscription_result(
                old(store)@,
                form.name@,
                form.email@,
                fresh,
                email_client@,
                base_url@,
                reply,
            ),
        keeps(old(store)@, final(store)@),
{
    store.well_formed();
    let ghost name = form.name@;
    let ghost email = form.email@;
    let ghost event = SubscribeEvent::Submitted(form);
    let next = subscribe(
        SubscribeState::Start,
        SubscribeEvent::Submitted(form),
        email_client,
        base_url,
    );
    let ghost fresh = choose|fresh: Fresh| #[trigger]
        fresh.plausible() && (next.0@, next.1@) == subscribe_transition(
            SubscribeStateView::Start,
            event,
            email_client@,
            base_url@,
            fresh,
        );
    proof {
        lemma_creation_keeps_store(store@, name, email, fresh, email_client@, base_url@, reply);
    }
    let settled = drive(
        store.take(),
        next.0,
        next.1,
        email_client,
        base_url,
        reply,
        Ghost(name),
        Ghost(email),
        Ghost(fresh),
    );
    *store = settled.0;
    (settled.1, settled.2)
}

/// Confirms the subscription behind the presented token.
pub fn confirm_subscription(
    store: &mut SubscriptionStore,
    parameters: Parameters,
) -> (outcome: Outcome)
    ensures
        (final(store)@, outcome@) == confirmation_result(
            old(store)@,
            parameters.subscription_token@,
        ),
        keeps(old(store)@, final(store)@),
{
    store.well_formed();
    proof {
        lemma_confirmation_keeps_store(store@, parameters.subscription_token@);
    }
    let ghost origin = store@;
    let ghost token = parameters.subscription_token@;
    let first = confirm(ConfirmState::Start, ConfirmEvent::Requested(parameters));
    let mut state = first.0;
    let mut action = first.1;
    loop
        invariant
            origin == old(store)@,
            token == parameters.subscription_token@,
            keeps(origin, confirmation_result(origin, token).0),
            match state {
                ConfirmState::Start => false,
                ConfirmState::LookingUp => {
                    &&& store@ == origin
                    &&& action@ == (ConfirmActionView::FindSubscriber {
                        subscription_token: token,
                    })
                },
                ConfirmState::Confirming => {
                    &&& store@ == origin
                    &&& origin.subscriber_of(token) matches Some(subscriber_id)
                    &&& action@ == ConfirmActionView::ConfirmSubscriber(subscriber_id)
                },
                ConfirmState::Done => {
                    &&& action@ matches ConfirmActionView::Respond(outcome)
                    &&& (store@, outcome) == confirmation_result(origin, token)
                },
            },
        decreases state.remaining_steps(),
    {
        let event = match action {
            ConfirmAction::Respond(outcome) => {
                return outcome;
            },
            ConfirmAction::FindSubscriber { subscription_token } => ConfirmEvent::Found(
                get_subscriber_id_from_token(store, subscription_token.as_str()),
            ),
            ConfirmAction::ConfirmSubscriber(subscriber_id) => {
                confirm_subscriber(store, subscriber_id);
                ConfirmEvent::Completed
            },
        };
        let next = confirm(state, event);
        state = next.0;
        action = next.1;
    }
}

/// A subscription that is created and then confirmed with the emailed token
/// is answered with success both times and ends up confirmed.
///
/// This holds where the store accepts the drawn id and token and the
/// provider accepts the email, provided that the provider's endpoint
/// resolves. The email then carries the link for the drawn token.
pub proof fn lemma_created_then_confirmed(
    store: StoreView,
    name: Seq<char>,
    email: Seq<char>,
    fresh: Fresh,
    client: EmailClientView,
    base_url: Seq<char>,
    reply: ProviderReply,
)
    requires
        store.well_formed(),
        rejection(name, email) is None,
        store.accepts_subscriber(fresh.subscriber_id),
        !store.tokens.contains_key(fresh.subscription_token),
        is_accepted(reply),
    ensures
        joined_url(client.base_url, "email"@) is Some ==> ({
            let created = subscription_result(store, name, email, fresh, client, base_url, reply);
            let confirmed = confirmation_result(created.store, fresh.subscription_token);
            &&& created.outcome == OutcomeView::Success
            &&& created.store.subscribers[fresh.subscriber_id] == draft_of(name, email, fresh).row()
            &&& created.store.subscriber_of(fresh.subscription_token) == Some(
                fresh.subscriber_id,
            )
            &&& created.sent == Some(
                confirmation_request(
                    client,
                    joined_url(client.base_url, "email"@)->0,
                    email,
                    base_url,
                    fresh.subscription_token,
                ),
            )
            &&& confirmed.1 == OutcomeView::Success
            &&& confirmed.0.subscribers.contains_key(fresh.subscriber_id)
            &&& confirmed.0.subscribers[fresh.subscriber_id] == draft_of(
                name,
                email,
                fresh,
            ).row().confirmed()
        }),
{
}

/// An email that lacks the `@`, the local part or the domain is answered
/// with a validation error, and nothing is written or sent.
pub proof fn lemma_malformed_email_is_refused(
    store: StoreView,
    name: Seq<char>,
    email: Seq<char>,
    fresh: Fresh,
    client: EmailClientView,
    base_url: Seq<char>,
    reply: ProviderReply,
)
    requires
        !email.contains('@') || email.first() == '@' || email.last() == '@',
    ensures
        ({
            let created = subscription_result(store, name, email, fresh, client, base_url, reply);
            &&& created.outcome is ClientError
            &&& created.store == store
            &&& created.sent is None
        }),
{
    lemma_malformed_email_is_invalid(email);
}

/// Where the provider does not accept the email, be it by an error status,
/// by a timeout or because it was never reached, the store is left as it
/// was and the answer is no success.
pub proof fn lemma_failed_dispatch_leaves_no_trace(
    store: StoreView,
    name: Seq<char>,
    email: Seq<char>,
    fresh: Fresh,
    client: EmailClientView,
    base_url: Seq<char>,
    reply: ProviderReply,
)
    requires
        !is_accepted(reply),
    ensures
        ({
            let created = subscription_result(store, name, email, fresh, client, base_url, reply);
            &&& created.store == store
            &&& created.outcome !is Success
            &&& rejection(name, email) is None ==> created.outcome is ServerError
        }),
{
}

/// Creation is all or nothing: either it is answered with success and has
/// added exactly the subscriber and its token, or the store is as it was.
pub proof fn lemma_creation_is_atomic(
    store: StoreView,
    name: Seq<char>,
    email: Seq<char>,
    fresh: Fresh,
    client: EmailClientView,
    base_url: Seq<char>,
    reply: ProviderReply,
)
    ensures
        ({
            let created = subscription_result(store, name, email, fresh, client, base_url, reply);
            if created.outcome is Success {
                created.store == store.with_subscriber(
                    draft_of(name, email, fresh).row(),
                ).with_token(fresh.subscription_token, fresh.subscriber_id)
            } else {
                created.store == store
            }
        }),
{
}

/// Confirming a token that was never issued is unauthorized and changes
/// nothing.
pub proof fn lemma_unknown_token_is_unauthorized(store: StoreView, token: Seq<char>)
    requires
        !store.tokens.contains_key(token),
    ensures
        confirmation_result(store, token) == (store, OutcomeView::Unauthorized),
{
}

/// Confirming a token a second time is answered as the first time and
/// changes nothing. For a token that is bound, both confirmations succeed
/// and the subscriber is confirmed after the first.
pub proof fn lemma_confirmation_is_idempotent(store: StoreView, token: Seq<char>)
    requires
        store.well_formed(),
    ensures
        ({
            let once = confirmation_result(store, token);
            let twice = confirmation_result(once.0, token);
            &&& twice == once
            &&& store.tokens.contains_key(token) ==> {
                &&& once.1 == OutcomeView::Success
                &&& once.0.subscribers[store.tokens[token]].status
                    == SubscriptionStatus::Confirmed
            }
        }),
{
    let once = confirmation_result(store, token);
    let twice = confirmation_result(once.0, token);
    assert(twice.0.subscribers =~= once.0.subscribers);
}

/// Creating a subscription keeps what the store holds, whatever the input
/// and however the attempt ends.
pub proof fn lemma_creation_keeps_store(
    store: StoreView,
    name: Seq<char>,
    email: Seq<char>,
    fresh: Fresh,
    client: EmailClientView,
    base_url: Seq<char>,
    reply: ProviderReply,
)
    requires
        store.well_formed(),
    ensures
        keeps(store, subscription_result(store, name, email, fresh, client, base_url, reply).store),
{
}

/// Confirming a token keeps what the store holds, whatever the token.
pub proof fn lemma_confirmation_keeps_store(store: StoreView, token: Seq<char>)
    requires
        store.well_formed(),
    ensures
        keeps(store, confirmation_result(store, token).0),
{
}

} // verus!
