use std::time::Duration;
use zero2prod::domain::NewSubscriber;
use zero2prod::domain::SubscriberEmail;
use zero2prod::email_client::Credential;
use zero2prod::email_client::EmailClient;
use zero2prod::email_client::ProviderReply;
use zero2prod::errors::ErrorReport;
use zero2prod::outcome::Outcome;
use zero2prod::routes::subscribe;
use zero2prod::routes::subscriptions::send_confirmation_email;
use zero2prod::routes::subscriptions::subscribe_with;
use zero2prod::routes::subscriptions::SubscribeAction;
use zero2prod::routes::subscriptions::SubscribeEvent;
use zero2prod::routes::subscriptions::SubscribeState;
use zero2prod::routes::FormData;
use zero2prod::store::StorageError;
use zero2prod::store::Subscriber;
use zero2prod::store::SubscriberId;
use zero2prod::store::SubscriptionStatus;

const BASE_URL: &str = "https://newsletter.example.com";
const TOKEN: &str = "abcdefghijklmnopqrstuvwxy";

fn client_at(base_url: &str) -> EmailClient {
    EmailClient::new(
        base_url.to_string(),
        SubscriberEmail::parse("newsletter@example.com".to_string()).unwrap(),
        Credential::new("my-secret-token".to_string()),
        Duration::from_millis(200),
    )
    .unwrap()
}

fn client() -> EmailClient {
    client_at("http://127.0.0.1:4000")
}

fn form() -> FormData {
    FormData {
        name: "Ursula Le Guin".to_string(),
        email: "ursula_le_guin@gmail.com".to_string(),
    }
}

fn step(state: SubscribeState, event: SubscribeEvent) -> (SubscribeState, SubscribeAction) {
    subscribe_with(
        state,
        event,
        &client(),
        BASE_URL,
        SubscriberId(7),
        1_700_000_000_000_000,
        TOKEN.to_string(),
    )
}

fn after_begin() -> SubscribeState {
    step(SubscribeState::Start, SubscribeEvent::Submitted(form())).0
}

fn after_insert() -> SubscribeState {
    step(after_begin(), SubscribeEvent::Completed).0
}

fn after_store_token() -> SubscribeState {
    step(after_insert(), SubscribeEvent::Completed).0
}

fn after_send() -> SubscribeState {
    step(after_store_token(), SubscribeEvent::Completed).0
}

fn after_commit() -> SubscribeState {
    step(after_send(), SubscribeEvent::Replied(ProviderReply::Status(200))).0
}

fn lost() -> StorageError {
    StorageError::ConnectivityLoss("connection reset by peer".to_string())
}

fn report(message: &str, causes: &[&str]) -> ErrorReport {
    ErrorReport {
        message: message.to_string(),
        causes: causes.iter().map(|cause| cause.to_string()).collect(),
    }
}

fn server_error(message: &str, causes: &[&str]) -> Outcome {
    Outcome::ServerError(report(message, causes))
}

fn name_of(action: &SubscribeAction) -> &'static str {
    match action {
        SubscribeAction::Begin => "Begin",
        SubscribeAction::InsertSubscriber(_) => "InsertSubscriber",
        SubscribeAction::StoreToken { .. } => "StoreToken",
        SubscribeAction::SendEmail(_) => "SendEmail",
        SubscribeAction::Commit => "Commit",
        SubscribeAction::Rollback => "Rollback",
        SubscribeAction::Respond(_) => "Respond",
    }
}

fn answer(action: SubscribeAction) -> Outcome {
    match action {
        SubscribeAction::Respond(outcome) => outcome,
        other => panic!("{}", name_of(&other)),
    }
}

fn assert_aborts(next: (SubscribeState, SubscribeAction), message: &str, causes: &[&str]) {
    let (state, action) = next;
    assert_eq!(name_of(&action), "Rollback");
    match state {
        SubscribeState::Aborting(kept) => assert_eq!(kept, report(message, causes)),
        other => panic!("{other:?}"),
    }
    for event in [SubscribeEvent::Completed, SubscribeEvent::Failed(lost())] {
        let (end, action) = step(SubscribeState::Aborting(report(message, causes)), event);
        assert!(matches!(end, SubscribeState::Done));
        assert_eq!(answer(action), server_error(message, causes));
    }
}

#[test]
fn the_confirmation_email_carries_the_link() {
    let subscriber = NewSubscriber::parse(
        "Ursula Le Guin".to_string(),
        "ursula_le_guin@gmail.com".to_string(),
    )
    .unwrap();

    let request = send_confirmation_email(&client(), subscriber, BASE_URL, TOKEN)
        .ok()
        .unwrap();

    assert_eq!(request.method, "POST");
    assert_eq!(request.url, "http://127.0.0.1:4000/email");
    assert_eq!(request.authorization_header, "X-Postmark-Server-Token");
    assert_eq!(request.authorization_token.expose_secret(), "my-secret-token");
    assert_eq!(request.from, "newsletter@example.com");
    assert_eq!(request.to, "ursula_le_guin@gmail.com");
    assert_eq!(request.subject, "Welcome");
    assert_eq!(
        request.html_body,
        "Welcome to our newsletter!<br />Click <a href=\"https://newsletter.example.com/subscriptions/confirm?subscription_token=abcdefghijklmnopqrstuvwxy\">here</a> to confirm your subscription."
    );
    assert_eq!(
        request.text_body,
        "Welcome to our newsletter!\nVisit https://newsletter.example.com/subscriptions/confirm?subscription_token=abcdefghijklmnopqrstuvwxy to confirm your subscription."
    );
    assert_eq!(request.timeout, Duration::from_millis(200));
}

#[test]
fn the_confirmation_email_fails_without_an_endpoint() {
    let subscriber = NewSubscriber::parse("Ursula".to_string(), "ursula@gmail.com".to_string())
        .unwrap();

    let error = send_confirmation_email(
        &client_at("mailto:postmaster@example.com"),
        subscriber,
        BASE_URL,
        TOKEN,
    )
    .err()
    .unwrap();

    assert_eq!(error.message(), "Unable to parse email endpoint");
}

#[test]
fn a_valid_form_opens_a_transaction() {
    let (state, action) = step(SubscribeState::Start, SubscribeEvent::Submitted(form()));

    assert_eq!(name_of(&action), "Begin");
    match state {
        SubscribeState::Beginning(draft) => {
            assert_eq!(draft.new_subscriber.name.as_ref(), "Ursula Le Guin");
            assert_eq!(draft.new_subscriber.email.as_ref(), "ursula_le_guin@gmail.com");
            assert_eq!(draft.subscriber_id, SubscriberId(7));
            assert_eq!(draft.subscribed_at, 1_700_000_000_000_000);
            assert_eq!(draft.subscription_token, TOKEN);
        }
        other => panic!("{other:?}"),
    }
}

#[test]
fn a_malformed_email_is_answered_at_once() {
    for email in ["ursuladomain.com", "@domain.com", "ursula@", ""] {
        let form = FormData { name: "Ursula".to_string(), email: email.to_string() };

        let (state, action) = step(SubscribeState::Start, SubscribeEvent::Submitted(form));

        assert!(matches!(state, SubscribeState::Done));
        let outcome = answer(action);
        assert_eq!(
            outcome,
            Outcome::ClientError(format!("{email} is not a valid subscriber email."))
        );
        assert_eq!(outcome.status_code(), 400);
    }
}

#[test]
fn an_empty_name_is_answered_at_once() {
    let form = FormData { name: String::new(), email: "ursula@gmail.com".to_string() };

    let (state, action) = step(SubscribeState::Start, SubscribeEvent::Submitted(form));

    assert!(matches!(state, SubscribeState::Done));
    assert_eq!(
        answer(action),
        Outcome::ClientError(" is not a valid subscriber name.".to_string())
    );
}

#[test]
fn the_subscriber_is_inserted_once_the_transaction_is_open() {
    let (state, action) = step(after_begin(), SubscribeEvent::Completed);

    assert!(matches!(state, SubscribeState::Inserting(_)));
    match action {
        SubscribeAction::InsertSubscriber(row) => assert_eq!(
            row,
            Subscriber {
                id: SubscriberId(7),
                name: "Ursula Le Guin".to_string(),
                email: "ursula_le_guin@gmail.com".to_string(),
                subscribed_at: 1_700_000_000_000_000,
                status: SubscriptionStatus::Pending,
            }
        ),
        other => panic!("{}", name_of(&other)),
    }
}

#[test]
fn a_transaction_that_does_not_open_is_answered_without_a_rollback() {
    let (state, action) = step(after_begin(), SubscribeEvent::Failed(lost()));

    assert!(matches!(state, SubscribeState::Done));
    assert_eq!(
        answer(action),
        server_error("Failed to begin a transaction.", &["connection reset by peer"])
    );
}

#[test]
fn the_token_is_stored_once_the_subscriber_is_inserted() {
    let (state, action) = step(after_insert(), SubscribeEvent::Completed);

    assert!(matches!(state, SubscribeState::StoringToken(_)));
    match action {
        SubscribeAction::StoreToken { subscriber_id, subscription_token } => {
            assert_eq!(subscriber_id, SubscriberId(7));
            assert_eq!(subscription_token, TOKEN);
        }
        other => panic!("{}", name_of(&other)),
    }
}

#[test]
fn a_failed_insert_rolls_back() {
    assert_aborts(
        step(after_insert(), SubscribeEvent::Failed(lost())),
        "Failed to insert new subscriber in the database.",
        &["connection reset by peer"],
    );
}

#[test]
fn the_email_is_sent_once_the_token_is_stored() {
    let (state, action) = step(after_store_token(), SubscribeEvent::Completed);

    assert!(matches!(state, SubscribeState::Dispatching));
    match action {
        SubscribeAction::SendEmail(request) => {
            assert_eq!(request.url, "http://127.0.0.1:4000/email");
            assert_eq!(request.to, "ursula_le_guin@gmail.com");
            assert_eq!(request.subject, "Welcome");
            assert!(request.html_body.contains(
                "https://newsletter.example.com/subscriptions/confirm?subscription_token=abcdefghijklmnopqrstuvwxy"
            ));
            assert!(request.text_body.contains(
                "https://newsletter.example.com/subscriptions/confirm?subscription_token=abcdefghijklmnopqrstuvwxy"
            ));
        }
        other => panic!("{}", name_of(&other)),
    }
}

#[test]
fn a_failed_token_write_rolls_back() {
    assert_aborts(
        step(after_store_token(), SubscribeEvent::Failed(lost())),
        "Failed to store the confirmation token for a new subscriber.",
        &[
            "A database error was encountered while trying to store a subscription token.",
            "connection reset by peer",
        ],
    );
}

#[test]
fn an_unresolvable_endpoint_rolls_back() {
    let next = subscribe_with(
        after_store_token(),
        SubscribeEvent::Completed,
        &client_at("mailto:postmaster@example.com"),
        BASE_URL,
        SubscriberId(7),
        0,
        TOKEN.to_string(),
    );

    assert_aborts(
        next,
        "Failed to send a confirmation email.",
        &["Unable to parse email endpoint"],
    );
}

#[test]
fn an_accepted_email_commits() {
    for status in [200, 202, 299] {
        let (state, action) =
            step(after_send(), SubscribeEvent::Replied(ProviderReply::Status(status)));

        assert!(matches!(state, SubscribeState::Committing));
        assert_eq!(name_of(&action), "Commit");
    }
}

#[test]
fn a_rejected_email_rolls_back() {
    assert_aborts(
        step(after_send(), SubscribeEvent::Replied(ProviderReply::Status(500))),
        "Failed to send a confirmation email.",
        &["The email provider rejected the request"],
    );
}

#[test]
fn a_redirect_is_no_success() {
    assert_aborts(
        step(after_send(), SubscribeEvent::Replied(ProviderReply::Status(302))),
        "Failed to send a confirmation email.",
        &["The email provider rejected the request"],
    );
}

#[test]
fn a_timed_out_email_rolls_back() {
    assert_aborts(
        step(after_send(), SubscribeEvent::Replied(ProviderReply::TimedOut)),
        "Failed to send a confirmation email.",
        &["The request to the email provider timed out"],
    );
}

#[test]
fn an_undelivered_email_rolls_back() {
    assert_aborts(
        step(
            after_send(),
            SubscribeEvent::Replied(ProviderReply::TransportFailure(
                "connection refused".to_string(),
            )),
        ),
        "Failed to send a confirmation email.",
        &["connection refused"],
    );
}

#[test]
fn a_commit_is_answered_with_success() {
    let (state, action) = step(after_commit(), SubscribeEvent::Completed);

    assert!(matches!(state, SubscribeState::Done));
    assert_eq!(answer(action), Outcome::Success);
}

#[test]
fn a_failed_commit_is_answered_with_a_server_error() {
    let (state, action) = step(after_commit(), SubscribeEvent::Failed(lost()));

    assert!(matches!(state, SubscribeState::Done));
    assert_eq!(
        answer(action),
        server_error(
            "Failed to commit the transaction that stores a new subscriber.",
            &["connection reset by peer"]
        )
    );
}

#[test]
fn an_event_out_of_turn_ends_the_attempt() {
    let unexpected = "Received an event that does not answer the pending action.";

    let (state, action) = step(SubscribeState::Start, SubscribeEvent::Completed);
    assert!(matches!(state, SubscribeState::Done));
    assert_eq!(answer(action), server_error(unexpected, &[]));

    let (state, action) = step(after_begin(), SubscribeEvent::Submitted(form()));
    assert!(matches!(state, SubscribeState::Done));
    assert_eq!(answer(action), server_error(unexpected, &[]));

    assert_aborts(
        step(after_insert(), SubscribeEvent::Replied(ProviderReply::Status(200))),
        unexpected,
        &[],
    );
    assert_aborts(step(after_store_token(), SubscribeEvent::Submitted(form())), unexpected, &[]);
    assert_aborts(step(after_send(), SubscribeEvent::Completed), unexpected, &[]);

    let (state, action) =
        step(after_commit(), SubscribeEvent::Replied(ProviderReply::Status(200)));
    assert!(matches!(state, SubscribeState::Done));
    assert_eq!(answer(action), server_error(unexpected, &[]));

    let (state, action) = step(SubscribeState::Done, SubscribeEvent::Completed);
    assert!(matches!(state, SubscribeState::Done));
    assert_eq!(answer(action), server_error(unexpected, &[]));
}

#[test]
fn the_step_draws_what_the_subscription_needs() {
    let (state, action) = subscribe(
        SubscribeState::Start,
        SubscribeEvent::Submitted(form()),
        &client(),
        BASE_URL,
    );

    assert_eq!(name_of(&action), "Begin");
    match state {
        SubscribeState::Beginning(draft) => {
            assert_eq!(draft.new_subscriber.name.as_ref(), "Ursula Le Guin");
            assert_eq!(draft.new_subscriber.email.as_ref(), "ursula_le_guin@gmail.com");
            assert_eq!(draft.subscription_token.len(), 25);
            assert!(draft.subscription_token.chars().all(|c| c.is_ascii_alphanumeric()));
            assert_eq!((draft.subscriber_id.0 >> 76) & 0xf, 4);
            assert!(draft.subscribed_at > 1_577_836_800_000_000);
        }
        other => panic!("{other:?}"),
    }
}

#[test]
fn the_step_draws_nothing_after_the_first() {
    let (state, action) =
        subscribe(after_insert(), SubscribeEvent::Completed, &client(), BASE_URL);

    assert!(matches!(state, SubscribeState::StoringToken(_)));
    match action {
        SubscribeAction::StoreToken { subscriber_id, subscription_token } => {
            assert_eq!(subscriber_id, SubscriberId(7));
            assert_eq!(subscription_token, TOKEN);
        }
        other => panic!("{}", name_of(&other)),
    }
}

#[test]
fn the_step_refuses_a_malformed_form() {
    let form = FormData { name: "Ursula".to_string(), email: "ursula@".to_string() };

    let (state, action) =
        subscribe(SubscribeState::Start, SubscribeEvent::Submitted(form), &client(), BASE_URL);

    assert!(matches!(state, SubscribeState::Done));
    assert_eq!(
        answer(action),
        Outcome::ClientError("ursula@ is not a valid subscriber email.".to_string())
    );
}
