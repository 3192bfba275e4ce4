use zero2prod::domain::NewSubscriber;
use zero2prod::store::confirm_subscriber;
use zero2prod::store::get_subscriber_id_from_token;
use zero2prod::store::insert_subscriber;
use zero2prod::store::new_subscriber_id;
use zero2prod::store::store_token;
use zero2prod::store::StorageError;
use zero2prod::store::Subscriber;
use zero2prod::store::SubscriberId;
use zero2prod::store::SubscriptionStatus;
use zero2prod::store::SubscriptionStore;

fn ursula() -> NewSubscriber {
    NewSubscriber::parse(
        "Ursula Le Guin".to_string(),
        "ursula_le_guin@gmail.com".to_string(),
    )
    .unwrap()
}

fn row(id: u128) -> Subscriber {
    Subscriber::pending(SubscriberId(id), &ursula(), 1_700_000_000_000_000)
}

#[test]
fn a_new_store_is_empty() {
    let store = SubscriptionStore::new();

    assert_eq!(store.subscriber_count(), 0);
    assert_eq!(store.token_count(), 0);
    assert_eq!(store.subscriber(SubscriberId(1)), None);
    assert_eq!(get_subscriber_id_from_token(&store, "anything"), None);
}

#[test]
fn a_pending_row_holds_what_it_was_made_from() {
    let row = row(7);

    assert_eq!(
        row,
        Subscriber {
            id: SubscriberId(7),
            name: "Ursula Le Guin".to_string(),
            email: "ursula_le_guin@gmail.com".to_string(),
            subscribed_at: 1_700_000_000_000_000,
            status: SubscriptionStatus::Pending,
        }
    );
    assert_eq!(row.duplicate(), row);
}

#[test]
fn committed_writes_reach_the_store() {
    let store = SubscriptionStore::new();
    let mut transaction = store.begin();

    assert_eq!(transaction.insert(row(7)), Ok(()));
    assert_eq!(store_token(&mut transaction, SubscriberId(7), "token-7"), Ok(()));
    let store = transaction.commit();

    assert_eq!(store.subscriber_count(), 1);
    assert_eq!(store.token_count(), 1);
    assert_eq!(store.subscriber(SubscriberId(7)), Some(row(7)));
    assert_eq!(get_subscriber_id_from_token(&store, "token-7"), Some(SubscriberId(7)));
}

#[test]
fn rolled_back_writes_leave_no_trace() {
    let store = SubscriptionStore::new();
    let mut transaction = store.begin();
    transaction.insert(row(7)).unwrap();
    store_token(&mut transaction, SubscriberId(7), "token-7").unwrap();

    let store = transaction.rollback();

    assert_eq!(store.subscriber_count(), 0);
    assert_eq!(store.token_count(), 0);
    assert_eq!(store.subscriber(SubscriberId(7)), None);
    assert_eq!(get_subscriber_id_from_token(&store, "token-7"), None);
}

#[test]
fn a_transaction_sees_what_was_committed_before_it() {
    let store = SubscriptionStore::new();
    let mut first = store.begin();
    first.insert(row(7)).unwrap();
    let store = first.commit();

    let mut second = store.begin();

    assert_eq!(
        second.insert(row(7)),
        Err(StorageError::ConstraintViolation(
            "subscriber id is already taken".to_string()
        ))
    );
    assert_eq!(second.insert(row(8)), Ok(()));
    let store = second.commit();
    assert_eq!(store.subscriber_count(), 2);
}

#[test]
fn a_taken_id_is_refused_within_one_transaction() {
    let store = SubscriptionStore::new();
    let mut transaction = store.begin();

    assert_eq!(transaction.insert(row(7)), Ok(()));
    assert!(transaction.insert(row(7)).is_err());
}

#[test]
fn a_bound_token_is_refused() {
    let store = SubscriptionStore::new();
    let mut transaction = store.begin();
    transaction.insert(row(7)).unwrap();
    transaction.insert(row(8)).unwrap();
    store_token(&mut transaction, SubscriberId(7), "token").unwrap();

    let second = store_token(&mut transaction, SubscriberId(8), "token");

    assert_eq!(
        second,
        Err(StorageError::ConstraintViolation(
            "subscription token is already bound or its subscriber is missing".to_string()
        ))
    );
    let store = transaction.commit();
    assert_eq!(get_subscriber_id_from_token(&store, "token"), Some(SubscriberId(7)));
    assert_eq!(store.token_count(), 1);
}

#[test]
fn a_token_for_a_missing_subscriber_is_refused() {
    let store = SubscriptionStore::new();
    let mut transaction = store.begin();

    assert!(store_token(&mut transaction, SubscriberId(7), "token").is_err());
    let store = transaction.commit();
    assert_eq!(store.token_count(), 0);
}

#[test]
fn one_subscriber_may_hold_several_tokens() {
    let store = SubscriptionStore::new();
    let mut transaction = store.begin();
    transaction.insert(row(7)).unwrap();
    store_token(&mut transaction, SubscriberId(7), "first").unwrap();
    store_token(&mut transaction, SubscriberId(7), "second").unwrap();
    let store = transaction.commit();

    assert_eq!(get_subscriber_id_from_token(&store, "first"), Some(SubscriberId(7)));
    assert_eq!(get_subscriber_id_from_token(&store, "second"), Some(SubscriberId(7)));
    assert_eq!(store.token_count(), 2);
}

#[test]
fn insert_subscriber_draws_the_id_and_stamps_the_row() {
    let store = SubscriptionStore::new();
    let mut transaction = store.begin();

    let id = insert_subscriber(&mut transaction, &ursula()).unwrap();
    let store = transaction.commit();

    let row = store.subscriber(id).unwrap();
    assert_eq!(row.id, id);
    assert_eq!(row.name, "Ursula Le Guin");
    assert_eq!(row.email, "ursula_le_guin@gmail.com");
    assert_eq!(row.status, SubscriptionStatus::Pending);
    // Later than 2020-01-01 and earlier than 2200-01-01, in microseconds.
    assert!(row.subscribed_at > 1_577_836_800_000_000);
    assert!(row.subscribed_at < 7_258_118_400_000_000);
}

#[test]
fn drawn_ids_are_version_4_uuids() {
    for _ in 0..100 {
        let SubscriberId(id) = new_subscriber_id();
        assert_eq!((id >> 76) & 0xf, 4, "{id:032x}");
        assert_eq!((id >> 62) & 0x3, 2, "{id:032x}");
    }
}

#[test]
fn drawn_ids_differ() {
    assert_ne!(new_subscriber_id(), new_subscriber_id());
}

#[test]
fn confirming_flips_the_status_and_nothing_else() {
    let store = SubscriptionStore::new();
    let mut transaction = store.begin();
    transaction.insert(row(7)).unwrap();
    transaction.insert(row(8)).unwrap();
    let mut store = transaction.commit();

    confirm_subscriber(&mut store, SubscriberId(7));

    let confirmed = store.subscriber(SubscriberId(7)).unwrap();
    assert_eq!(confirmed.status, SubscriptionStatus::Confirmed);
    assert_eq!(confirmed.name, "Ursula Le Guin");
    assert_eq!(confirmed.email, "ursula_le_guin@gmail.com");
    assert_eq!(confirmed.subscribed_at, 1_700_000_000_000_000);
    assert_eq!(store.subscriber(SubscriberId(8)), Some(row(8)));
    assert_eq!(store.subscriber_count(), 2);
}

#[test]
fn confirming_twice_changes_nothing_more() {
    let store = SubscriptionStore::new();
    let mut transaction = store.begin();
    transaction.insert(row(7)).unwrap();
    let mut store = transaction.commit();

    confirm_subscriber(&mut store, SubscriberId(7));
    let once = store.subscriber(SubscriberId(7));
    confirm_subscriber(&mut store, SubscriberId(7));

    assert_eq!(store.subscriber(SubscriberId(7)), once);
    assert_eq!(once.unwrap().status, SubscriptionStatus::Confirmed);
}

#[test]
fn confirming_a_missing_subscriber_changes_nothing() {
    let store = SubscriptionStore::new();
    let mut transaction = store.begin();
    transaction.insert(row(7)).unwrap();
    let mut store = transaction.commit();

    confirm_subscriber(&mut store, SubscriberId(9));

    assert_eq!(store.subscriber(SubscriberId(7)), Some(row(7)));
    assert_eq!(store.subscriber(SubscriberId(9)), None);
    assert_eq!(store.subscriber_count(), 1);
}

#[test]
fn a_token_is_found_by_its_exact_text_only() {
    let store = SubscriptionStore::new();
    let mut transaction = store.begin();
    transaction.insert(row(7)).unwrap();
    store_token(&mut transaction, SubscriberId(7), "Token").unwrap();
    let store = transaction.commit();

    assert_eq!(get_subscriber_id_from_token(&store, "Token"), Some(SubscriberId(7)));
    assert_eq!(get_subscriber_id_from_token(&store, "token"), None);
    assert_eq!(get_subscriber_id_from_token(&store, "Token "), None);
    assert_eq!(get_subscriber_id_from_token(&store, ""), None);
}

#[test]
fn a_rollback_keeps_what_was_committed_before() {
    let store = SubscriptionStore::new();
    let mut first = store.begin();
    first.insert(row(7)).unwrap();
    store_token(&mut first, SubscriberId(7), "token-7").unwrap();
    let store = first.commit();
    let mut second = store.begin();
    second.insert(row(8)).unwrap();
    store_token(&mut second, SubscriberId(8), "token-8").unwrap();

    let store = second.rollback();

    assert_eq!(store.subscriber_count(), 1);
    assert_eq!(store.token_count(), 1);
    assert_eq!(store.subscriber(SubscriberId(7)), Some(row(7)));
    assert_eq!(store.subscriber(SubscriberId(8)), None);
    assert_eq!(get_subscriber_id_from_token(&store, "token-7"), Some(SubscriberId(7)));
    assert_eq!(get_subscriber_id_from_token(&store, "token-8"), None);
}

#[test]
fn taking_the_rows_leaves_an_empty_store() {
    let store = SubscriptionStore::new();
    let mut transaction = store.begin();
    transaction.insert(row(7)).unwrap();
    let mut store = transaction.commit();

    let taken = store.take();

    assert_eq!(store.subscriber_count(), 0);
    assert_eq!(taken.subscriber_count(), 1);
    assert_eq!(taken.subscriber(SubscriberId(7)), Some(row(7)));
}

#[test]
fn each_status_has_its_spelling() {
    assert_eq!(SubscriptionStatus::Pending.as_str(), "pending_confirmation");
    assert_eq!(SubscriptionStatus::Confirmed.as_str(), "confirmed");
}

#[test]
fn binding_a_token_takes_the_text_as_it_is() {
    let store = SubscriptionStore::new();
    let mut transaction = store.begin();
    transaction.insert(row(7)).unwrap();

    assert_eq!(transaction.bind(SubscriberId(7), "token-7".to_string()), Ok(()));
    assert!(transaction.bind(SubscriberId(7), "token-7".to_string()).is_err());
    assert!(transaction.bind(SubscriberId(8), "token-8".to_string()).is_err());
    let store = transaction.commit();

    assert_eq!(get_subscriber_id_from_token(&store, "token-7"), Some(SubscriberId(7)));
    assert_eq!(store.token_count(), 1);
}
