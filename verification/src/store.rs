//! The subscription store: subscribers and their confirmation tokens, with
//! writes grouped into transactions.
//!
//! [`StoreView`] is the mathematical model of the two tables.
//! [`SubscriptionStore`] is an in-memory store that implements it; a
//! deployment that keeps its rows in a database is expected to behave as the
//! model says.

use crate::domain::NewSubscriber;
use chrono::Utc;
use uuid::Uuid;
use vstd::prelude::*;

verus! {

/// Identifies a subscriber.
#[derive(Clone, Copy, Debug, PartialEq, Eq, Structural)]
pub struct SubscriberId(pub u128);

/// Where a subscriber stands. The only transition is from `Pending` to
/// `Confirmed`.
#[derive(Clone, Copy, Debug, PartialEq, Eq, Structural)]
pub enum SubscriptionStatus {
    Pending,
    Confirmed,
}

impl SubscriptionStatus {
    /// The status as the subscribers table spells it.
    pub open spec fn text(self) -> Seq<char> {
        match self {
            SubscriptionStatus::Pending => "pending_confirmation"@,
            SubscriptionStatus::Confirmed => "confirmed"@,
        }
    }

    /// The status as the subscribers table spells it.
    pub fn as_str(&self) -> (text: &'static str)
        ensures
            text@ == self.text(),
    {
        match self {
            SubscriptionStatus::Pending => "pending_confirmation",
            SubscriptionStatus::Confirmed => "confirmed",
        }
    }
}

/// One row of the subscribers table.
#[derive(Debug, PartialEq, Eq)]
pub struct Subscriber {
    pub id: SubscriberId,
    pub name: String,
    pub email: String,
    /// Microseconds since the Unix epoch, UTC.
    pub subscribed_at: i64,
    pub status: SubscriptionStatus,
}

/// A [`Subscriber`] as mathematical values.
pub struct SubscriberView {
    pub id: SubscriberId,
    pub name: Seq<char>,
    pub email: Seq<char>,
    pub subscribed_at: i64,
    pub status: SubscriptionStatus,
}

impl View for Subscriber {
    type V = SubscriberView;

    open spec fn view(&self) -> SubscriberView {
        SubscriberView {
            id: self.id,
            name: self.name@,
            email: self.email@,
            subscribed_at: self.subscribed_at,
            status: self.status,
        }
    }
}

impl SubscriberView {
    /// This row with its status set to `Confirmed`.
    pub open spec fn confirmed(self) -> SubscriberView {
        SubscriberView { status: SubscriptionStatus::Confirmed, ..self }
    }
}

/// The row that a new subscription starts as.
pub open spec fn pending_subscriber(
    id: SubscriberId,
    name: Seq<char>,
    email: Seq<char>,
    subscribed_at: i64,
) -> SubscriberView {
    SubscriberView { id, name, email, subscribed_at, status: SubscriptionStatus::Pending }
}

impl Subscriber {
    /// The row for `new_subscriber` under `id`, created at `subscribed_at`,
    /// awaiting confirmation.
    pub fn pending(
        id: SubscriberId,
        new_subscriber: &NewSubscriber,
        subscribed_at: i64,
    ) -> (row: Subscriber)
        ensures
            row@ == pending_subscriber(
                id,
                new_subscriber.name@,
                new_subscriber.email@,
                subscribed_at,
            ),
    {
        Subscriber {
            id,
            name: new_subscriber.name.as_ref().to_owned(),
            email: new_subscriber.email.as_ref().to_owned(),
            subscribed_at,
            status: SubscriptionStatus::Pending,
        }
    }

    /// A copy of this row.
    pub fn duplicate(&self) -> (copy: Subscriber)
        ensures
            copy@ == self@,
    {
        Subscriber {
            id: self.id,
            name: self.name.clone(),
            email: self.email.clone(),
            subscribed_at: self.subscribed_at,
            status: self.status,
        }
    }
}

/// One row of the tokens table: a token and the subscriber it confirms.
#[derive(Debug, PartialEq, Eq)]
pub struct ConfirmationToken {
    pub token: String,
    pub subscriber_id: SubscriberId,
}

/// Why the store refused or failed an operation.
#[derive(Debug, PartialEq, Eq)]
pub enum StorageError {
    /// The write would break a constraint of the tables; the text names it.
    ConstraintViolation(String),
    /// The store could not be reached; the text is the driver's report.
    ConnectivityLoss(String),
}

impl StorageError {
    /// The report carried by this error.
    pub open spec fn report(self) -> Seq<char> {
        match self {
            StorageError::ConstraintViolation(report) => report@,
            StorageError::ConnectivityLoss(report) => report@,
        }
    }

    /// The report carried by this error.
    pub fn message(&self) -> (message: String)
        ensures
            message@ == self.report(),
    {
        match self {
            StorageError::ConstraintViolation(report) => report.clone(),
            StorageError::ConnectivityLoss(report) => report.clone(),
        }
    }
}

/// The two tables as maps: subscribers by id, and the subscriber each token
/// is bound to.
#[verifier::ext_equal]
pub struct StoreView {
    pub subscribers: Map<SubscriberId, SubscriberView>,
    pub tokens: Map<Seq<char>, SubscriberId>,
}

impl StoreView {
    /// No subscribers, no tokens.
    pub open spec fn empty() -> StoreView {
        StoreView { subscribers: Map::empty(), tokens: Map::empty() }
    }

    /// Every row is filed under its own id, and every token is bound to a
    /// subscriber that exists.
    pub open spec fn well_formed(self) -> bool {
        &&& forall|id: SubscriberId| #[trigger]
            self.subscribers.contains_key(id) ==> self.subscribers[id].id == id
        &&& forall|token: Seq<char>| #[trigger]
            self.tokens.contains_key(token) ==> self.subscribers.contains_key(self.tokens[token])
    }

    /// A subscriber with this id may be inserted: the id is not taken.
    pub open spec fn accepts_subscriber(self, id: SubscriberId) -> bool {
        !self.subscribers.contains_key(id)
    }

    /// Some id that may be drawn for a new subscriber is taken, so that a
    /// drawing can be refused.
    pub open spec fn holds_drawn_id(self) -> bool {
        exists|id: SubscriberId| is_version_4(id.0) && #[trigger] self.subscribers.contains_key(id)
    }

    /// This token may be bound to this subscriber: the token is not taken and
    /// the subscriber exists.
    pub open spec fn accepts_token(self, token: Seq<char>, id: SubscriberId) -> bool {
        !self.tokens.contains_key(token) && self.subscribers.contains_key(id)
    }

    /// The store with `row` added.
    pub open spec fn with_subscriber(self, row: SubscriberView) -> StoreView {
        StoreView { subscribers: self.subscribers.insert(row.id, row), ..self }
    }

    /// The store with `token` bound to `id`.
    pub open spec fn with_token(self, token: Seq<char>, id: SubscriberId) -> StoreView {
        StoreView { tokens: self.tokens.insert(token, id), ..self }
    }

    /// The store after the subscriber `id`, if there is one, has been
    /// confirmed.
    pub open spec fn with_confirmed(self, id: SubscriberId) -> StoreView {
        if self.subscribers.contains_key(id) {
            StoreView {
                subscribers: self.subscribers.insert(id, self.subscribers[id].confirmed()),
                ..self
            }
        } else {
            self
        }
    }

    /// The subscriber that `token` is bound to.
    pub open spec fn subscriber_of(self, token: Seq<char>) -> Option<SubscriberId> {
        if self.tokens.contains_key(token) {
            Some(self.tokens[token])
        } else {
            None
        }
    }
}

/// `after` keeps what `before` holds: the store stays well formed, no
/// subscriber and no token leaves it, no token changes its subscriber, no
/// subscriber changes but in its status, and no confirmed subscriber goes
/// back to pending.
pub open spec fn keeps(before: StoreView, after: StoreView) -> bool {
    &&& after.well_formed()
    &&& forall|token: Seq<char>| #[trigger]
        before.tokens.contains_key(token) ==> {
            &&& after.tokens.contains_key(token)
            &&& after.tokens[token] == before.tokens[token]
        }
    &&& forall|id: SubscriberId| #[trigger]
        before.subscribers.contains_key(id) ==> {
            &&& after.subscribers.contains_key(id)
            &&& after.subscribers[id] == before.subscribers[id] || {
                &&& before.subscribers[id].status == SubscriptionStatus::Pending
                &&& after.subscribers[id] == before.subscribers[id].confirmed()
            }
        }
}

/// A well-formed store keeps itself.
pub proof fn lemma_keeps_itself(store: StoreView)
    requires
        store.well_formed(),
    ensures
        keeps(store, store),
{
}

/// What is kept twice over is kept.
pub proof fn lemma_keeps_on(before: StoreView, between: StoreView, after: StoreView)
    requires
        keeps(before, between),
        keeps(between, after),
    ensures
        keeps(before, after),
{
    assert forall|id: SubscriberId| #[trigger] before.subscribers.contains_key(id) implies {
        &&& after.subscribers.contains_key(id)
        &&& after.subscribers[id] == before.subscribers[id] || {
            &&& before.subscribers[id].status == SubscriptionStatus::Pending
            &&& after.subscribers[id] == before.subscribers[id].confirmed()
        }
    } by {
        assert(between.subscribers.contains_key(id));
    }
    assert forall|token: Seq<char>| #[trigger] before.tokens.contains_key(token) implies {
        &&& after.tokens.contains_key(token)
        &&& after.tokens[token] == before.tokens[token]
    } by {
        assert(between.tokens.contains_key(token));
    }
}

/// `Uuid::new_v4` draws a random version-4 UUID: 122 random bits around the
/// fixed version and variant bits, which is all that is claimed here. The
/// wrapper returns the UUID as the 128-bit number that `Uuid::as_u128` packs
/// its bytes into.
#[verifier::external_body]
fn new_uuid_v4() -> (id: u128)
    ensures
        is_version_4(id),
{
    Uuid::new_v4().as_u128()
}

/// Draws the id of a new subscriber: a random UUID.
pub fn new_subscriber_id() -> (id: SubscriberId)
    ensures
        is_version_4(id.0),
{
    SubscriberId(new_uuid_v4())
}

/// The version and variant bits of a random (version 4) UUID.
pub open spec fn is_version_4(id: u128) -> bool {
    id & 0x0000_0000_0000_f000_c000_0000_0000_0000 == 0x0000_0000_0000_4000_8000_0000_0000_0000
}

/// `Utc::now` reads the clock and `DateTime::timestamp_micros` counts the
/// microseconds since the Unix epoch. Nothing is claimed of the reading.
#[verifier::external_body]
pub(crate) fn now_micros() -> (now: i64) {
    Utc::now().timestamp_micros()
}

/// `rows` holds exactly the subscribers of `table`, each once.
spec fn holds_subscribers(rows: Seq<Subscriber>, table: Map<SubscriberId, SubscriberView>) -> bool {
    &&& forall|i: int|
        0 <= i < rows.len() ==> {
            &&& table.contains_key((#[trigger] rows[i]).id)
            &&& table[rows[i].id] == rows[i]@
        }
    &&& forall|id: SubscriberId| #[trigger]
        table.contains_key(id) ==> exists|i: int|
            0 <= i < rows.len() && (#[trigger] rows[i]).id == id
    &&& forall|i: int, j: int|
        0 <= i < j < rows.len() ==> (#[trigger] rows[i]).id != (#[trigger] rows[j]).id
    &&& table.dom().finite()
    &&& table.dom().len() == rows.len()
}

/// `rows` holds exactly the bindings of `table`, each once.
spec fn holds_tokens(rows: Seq<ConfirmationToken>, table: Map<Seq<char>, SubscriberId>) -> bool {
    &&& forall|i: int|
        0 <= i < rows.len() ==> {
            &&& table.contains_key((#[trigger] rows[i]).token@)
            &&& table[rows[i].token@] == rows[i].subscriber_id
        }
    &&& forall|token: Seq<char>| #[trigger]
        table.contains_key(token) ==> exists|i: int|
            0 <= i < rows.len() && (#[trigger] rows[i]).token@ == token
    &&& table.dom().finite()
    &&& table.dom().len() == rows.len()
}

/// Appending a row whose id is new matches inserting it into the table.
proof fn lemma_push_subscriber(
    rows: Seq<Subscriber>,
    table: Map<SubscriberId, SubscriberView>,
    row: Subscriber,
)
    requires
        holds_subscribers(rows, table),
        !table.contains_key(row.id),
    ensures
        holds_subscribers(rows.push(row), table.insert(row.id, row@)),
{
    let grown = rows.push(row);
    let after = table.insert(row.id, row@);
    assert forall|i: int| 0 <= i < grown.len() implies after.contains_key(
        (#[trigger] grown[i]).id,
    ) && after[grown[i].id] == grown[i]@ by {
        if i < rows.len() {
            assert(grown[i] == rows[i]);
        }
    }
    assert forall|id: SubscriberId| #[trigger] after.contains_key(id) implies exists|i: int|
        0 <= i < grown.len() && (#[trigger] grown[i]).id == id by {
        if id == row.id {
            assert(grown[rows.len() as int].id == id);
        } else {
            let i = choose|i: int| 0 <= i < rows.len() && (#[trigger] rows[i]).id == id;
            assert(grown[i].id == id);
        }
    }
    assert forall|i: int, j: int| 0 <= i < j < grown.len() implies (#[trigger] grown[i]).id != (
    #[trigger] grown[j]).id by {
        assert(grown[i] == rows[i]);
        if j < rows.len() {
            assert(grown[j] == rows[j]);
        }
    }
    assert(after.dom() =~= table.dom().insert(row.id));
}

/// Replacing a row by its confirmed self matches updating the table.
proof fn lemma_confirm_subscriber(
    rows: Seq<Subscriber>,
    table: Map<SubscriberId, SubscriberView>,
    at: int,
    row: Subscriber,
)
    requires
        holds_subscribers(rows, table),
        0 <= at < rows.len(),
        row@ == rows[at]@.confirmed(),
    ensures
        holds_subscribers(rows.update(at, row), table.insert(row.id, row@)),
{
    let changed = rows.update(at, row);
    let after = table.insert(row.id, row@);
    assert(row.id == rows[at].id);
    assert forall|i: int| 0 <= i < changed.len() implies after.contains_key(
        (#[trigger] changed[i]).id,
    ) && after[changed[i].id] == changed[i]@ by {
        if i != at {
            assert(changed[i] == rows[i]);
            if i < at {
                assert(rows[i].id != rows[at].id);
            } else {
                assert(rows[at].id != rows[i].id);
            }
        }
    }
    assert forall|id: SubscriberId| #[trigger] after.contains_key(id) implies exists|i: int|
        0 <= i < changed.len() && (#[trigger] changed[i]).id == id by {
        if id == row.id {
            assert(changed[at].id == id);
        } else {
            let i = choose|i: int| 0 <= i < rows.len() && (#[trigger] rows[i]).id == id;
            assert(changed[i].id == id);
        }
    }
    assert forall|i: int, j: int| 0 <= i < j < changed.len() implies (#[trigger] changed[i]).id
        != (#[trigger] changed[j]).id by {
        assert(changed[i].id == rows[i].id);
        assert(changed[j].id == rows[j].id);
    }
    assert(after.dom() =~= table.dom());
}

/// Appending a binding whose token is new matches inserting it into the
/// table.
proof fn lemma_push_token(
    rows: Seq<ConfirmationToken>,
    table: Map<Seq<char>, SubscriberId>,
    row: ConfirmationToken,
)
    requires
        holds_tokens(rows, table),
        !table.contains_key(row.token@),
    ensures
        holds_tokens(rows.push(row), table.insert(row.token@, row.subscriber_id)),
{
    let grown = rows.push(row);
    let after = table.insert(row.token@, row.subscriber_id);
    assert forall|i: int| 0 <= i < grown.len() implies after.contains_key(
        (#[trigger] grown[i]).token@,
    ) && after[grown[i].token@] == grown[i].subscriber_id by {
        if i < rows.len() {
            assert(grown[i] == rows[i]);
        }
    }
    assert forall|token: Seq<char>| #[trigger] after.contains_key(token) implies exists|i: int|
        0 <= i < grown.len() && (#[trigger] grown[i]).token@ == token by {
        if token == row.token@ {
            assert(grown[rows.len() as int].token@ == token);
        } else {
            let i = choose|i: int| 0 <= i < rows.len() && (#[trigger] rows[i]).token@ == token;
            assert(grown[i].token@ == token);
        }
    }
    assert(after.dom() =~= table.dom().insert(row.token@));
}

/// Copies of the rows hold the same table.
proof fn lemma_same_subscribers(
    rows: Seq<Subscriber>,
    copies: Seq<Subscriber>,
    table: Map<SubscriberId, SubscriberView>,
)
    requires
        holds_subscribers(rows, table),
        copies.len() == rows.len(),
        forall|k: int| 0 <= k < rows.len() ==> (#[trigger] copies[k])@ == rows[k]@,
    ensures
        holds_subscribers(copies, table),
{
    assert forall|i: int| 0 <= i < copies.len() implies table.contains_key(
        (#[trigger] copies[i]).id,
    ) && table[copies[i].id] == copies[i]@ by {
        assert(copies[i]@ == rows[i]@);
        assert(copies[i].id == rows[i].id);
    }
    assert forall|id: SubscriberId| #[trigger] table.contains_key(id) implies exists|i: int|
        0 <= i < copies.len() && (#[trigger] copies[i]).id == id by {
        let i = choose|i: int| 0 <= i < rows.len() && (#[trigger] rows[i]).id == id;
        assert(copies[i]@ == rows[i]@);
        assert(copies[i].id == id);
    }
    assert forall|i: int, j: int| 0 <= i < j < copies.len() implies (#[trigger] copies[i]).id != (
    #[trigger] copies[j]).id by {
        assert(copies[i]@ == rows[i]@);
        assert(copies[j]@ == rows[j]@);
        assert(rows[i].id != rows[j].id);
    }
}

/// Copies of the bindings hold the same table.
proof fn lemma_same_tokens(
    rows: Seq<ConfirmationToken>,
    copies: Seq<ConfirmationToken>,
    table: Map<Seq<char>, SubscriberId>,
)
    requires
        holds_tokens(rows, table),
        copies.len() == rows.len(),
        forall|k: int|
            0 <= k < rows.len() ==> (#[trigger] copies[k]).token@ == rows[k].token@
                && copies[k].subscriber_id == rows[k].subscriber_id,
    ensures
        holds_tokens(copies, table),
{
    assert forall|i: int| 0 <= i < copies.len() implies table.contains_key(
        (#[trigger] copies[i]).token@,
    ) && table[copies[i].token@] == copies[i].subscriber_id by {
        assert(copies[i].token@ == rows[i].token@);
    }
    assert forall|token: Seq<char>| #[trigger] table.contains_key(token) implies exists|i: int|
        0 <= i < copies.len() && (#[trigger] copies[i]).token@ == token by {
        let i = choose|i: int| 0 <= i < rows.len() && (#[trigger] rows[i]).token@ == token;
        assert(copies[i].token@ == token);
    }
}

/// An in-memory subscription store.
pub struct SubscriptionStore {
    subscribers: Vec<Subscriber>,
    tokens: Vec<ConfirmationToken>,
    model: Ghost<StoreView>,
}

impl View for SubscriptionStore {
    type V = StoreView;

    closed spec fn view(&self) -> StoreView {
        self.model@
    }
}

impl SubscriptionStore {
    #[verifier::type_invariant]
    spec fn represents(&self) -> bool {
        &&& self.model@.well_formed()
        &&& holds_subscribers(self.subscribers@, self.model@.subscribers)
        &&& holds_tokens(self.tokens@, self.model@.tokens)
    }

    /// A store without rows.
    pub fn new() -> (store: SubscriptionStore)
        ensures
            store@ == StoreView::empty(),
            store@.well_formed(),
    {
        SubscriptionStore {
            subscribers: Vec::new(),
            tokens: Vec::new(),
            model: Ghost(StoreView::empty()),
        }
    }

    /// How many subscribers the store holds.
    pub fn subscriber_count(&self) -> (count: usize)
        ensures
            self@.subscribers.dom().finite(),
            count == self@.subscribers.dom().len(),
    {
        proof {
            use_type_invariant(self);
        }
        self.subscribers.len()
    }

    /// How many tokens the store holds.
    pub fn token_count(&self) -> (count: usize)
        ensures
            self@.tokens.dom().finite(),
            count == self@.tokens.dom().len(),
    {
        proof {
            use_type_invariant(self);
        }
        self.tokens.len()
    }

    /// The subscriber filed under `id`, if there is one.
    pub fn subscriber(&self, id: SubscriberId) -> (found: Option<Subscriber>)
        ensures
            match found {
                Some(row) => self@.subscribers.contains_key(id) && row@ == self@.subscribers[id],
                None => !self@.subscribers.contains_key(id),
            },
    {
        proof {
            use_type_invariant(self);
        }
        match self.position_of_subscriber(id) {
            Some(i) => Some(self.subscribers[i].duplicate()),
            None => None,
        }
    }

    /// Does nothing when run. To a verified caller it shows what holds of
    /// every store: its rows form a well-formed model.
    pub fn well_formed(&self)
        ensures
            self@.well_formed(),
    {
        proof {
            use_type_invariant(self);
        }
    }

    /// Moves the rows out, leaving an empty store behind.
    pub fn take(&mut self) -> (taken: SubscriptionStore)
        ensures
            taken == *old(self),
            final(self)@ == StoreView::empty(),
    {
        let mut taken = SubscriptionStore::new();
        core::mem::swap(self, &mut taken);
        taken
    }

    /// Where the subscriber `id` sits, if it exists.
    fn position_of_subscriber(&self, id: SubscriberId) -> (position: Option<usize>)
        ensures
            match position {
                Some(i) => i < self.subscribers@.len() && self.subscribers@[i as int].id == id
                    && self@.subscribers.contains_key(id),
                None => !self@.subscribers.contains_key(id),
            },
    {
        proof {
            use_type_invariant(self);
        }
        let mut i: usize = 0;
        while i < self.subscribers.len()
            invariant
                self.represents(),
                i <= self.subscribers@.len(),
                forall|k: int| 0 <= k < i ==> (#[trigger] self.subscribers@[k]).id != id,
            decreases self.subscribers@.len() - i,
        {
            if self.subscribers[i].id == id {
                return Some(i);
            }
            i += 1;
        }
        None
    }

    /// Where the row of `token` sits, if the token is bound.
    fn position_of_token(&self, token: &String) -> (position: Option<usize>)
        ensures
            match position {
                Some(i) => i < self.tokens@.len() && self.tokens@[i as int].token@ == token@
                    && self@.tokens.contains_key(token@),
                None => !self@.tokens.contains_key(token@),
            },
    {
        proof {
            use_type_invariant(self);
        }
        let mut i: usize = 0;
        while i < self.tokens.len()
            invariant
                self.represents(),
                i <= self.tokens@.len(),
                forall|k: int| 0 <= k < i ==> (#[trigger] self.tokens@[k]).token@ != token@,
            decreases self.tokens@.len() - i,
        {
            if self.tokens[i].token == *token {
                return Some(i);
            }
            i += 1;
        }
        None
    }

    /// A copy of the store with the same rows.
    fn snapshot(&self) -> (copy: SubscriptionStore)
        ensures
            copy@ == self@,
    {
        proof {
            use_type_invariant(self);
        }
        let mut subscribers: Vec<Subscriber> = Vec::new();
        let mut i: usize = 0;
        while i < self.subscribers.len()
            invariant
                i <= self.subscribers@.len(),
                subscribers@.len() == i,
                forall|k: int|
                    0 <= k < i ==> (#[trigger] subscribers@[k])@ == self.subscribers@[k]@
                        && subscribers@[k].id == self.subscribers@[k].id,
            decreases self.subscribers@.len() - i,
        {
            subscribers.push(self.subscribers[i].duplicate());
            i += 1;
        }
        let mut tokens: Vec<ConfirmationToken> = Vec::new();
        let mut j: usize = 0;
        while j < self.tokens.len()
            invariant
                j <= self.tokens@.len(),
                tokens@.len() == j,
                forall|k: int|
                    0 <= k < j ==> (#[trigger] tokens@[k]).token@ == self.tokens@[k].token@
                        && tokens@[k].subscriber_id == self.tokens@[k].subscriber_id,
            decreases self.tokens@.len() - j,
        {
            tokens.push(
                ConfirmationToken {
                    token: self.tokens[j].token.clone(),
                    subscriber_id: self.tokens[j].subscriber_id,
                },
            );
            j += 1;
        }
        proof {
            lemma_same_subscribers(self.subscribers@, subscribers@, self.model@.subscribers);
            lemma_same_tokens(self.tokens@, tokens@, self.model@.tokens);
        }
        SubscriptionStore { subscribers, tokens, model: Ghost(self.model@) }
    }

    /// Adds `row`, unless its id is taken.
    fn insert_row(&mut self, row: Subscriber) -> (inserted: bool)
        ensures
            inserted == old(self)@.accepts_subscriber(row.id),
            final(self)@ == if inserted {
                old(self)@.with_subscriber(row@)
            } else {
                old(self)@
            },
    {
        proof {
            use_type_invariant(&*self);
        }
        if self.position_of_subscriber(row.id).is_some() {
            return false;
        }
        let ghost row_view = row@;
        let SubscriptionStore { mut subscribers, tokens, model } = self.take();
        proof {
            lemma_push_subscriber(subscribers@, model@.subscribers, row);
        }
        subscribers.push(row);
        *self = SubscriptionStore {
            subscribers,
            tokens,
            model: Ghost(model@.with_subscriber(row_view)),
        };
        true
    }

    /// Binds `token` to `subscriber_id`, unless the token is taken or the
    /// subscriber is missing.
    fn insert_token(&mut self, subscriber_id: SubscriberId, token: String) -> (inserted: bool)
        ensures
            inserted == old(self)@.accepts_token(token@, subscriber_id),
            final(self)@ == if inserted {
                old(self)@.with_token(token@, subscriber_id)
            } else {
                old(self)@
            },
    {
        proof {
            use_type_invariant(&*self);
        }
        if self.position_of_token(&token).is_some() {
            return false;
        }
        if self.position_of_subscriber(subscriber_id).is_none() {
            return false;
        }
        let ghost text = token@;
        let SubscriptionStore { subscribers, mut tokens, model } = self.take();
        let row = ConfirmationToken { token, subscriber_id };
        proof {
            lemma_push_token(tokens@, model@.tokens, row);
        }
        tokens.push(row);
        *self = SubscriptionStore {
            subscribers,
            tokens,
            model: Ghost(model@.with_token(text, subscriber_id)),
        };
        true
    }

    /// Opens a transaction. The transaction holds the store until it is
    /// committed or rolled back, so one unit of work is open at a time.
    pub fn begin(self) -> (transaction: Transaction)
        ensures
            transaction@ == self@,
            transaction.origin() == self@,
            self@.well_formed(),
    {
        proof {
            use_type_invariant(&self);
            lemma_keeps_itself(self@);
        }
        let working = self.snapshot();
        Transaction { committed: self, working }
    }
}

/// What the store reports when it refuses a subscriber.
pub open spec fn subscriber_refused() -> Seq<char> {
    "subscriber id is already taken"@
}

/// What the store reports when it refuses a token.
pub open spec fn token_refused() -> Seq<char> {
    "subscription token is already bound or its subscriber is missing"@
}

/// A unit of work on the store. Its view is the store as its writes will
/// leave it if it commits; [`Transaction::origin`] is the store as it was
/// when the transaction began.
pub struct Transaction {
    committed: SubscriptionStore,
    working: SubscriptionStore,
}

impl View for Transaction {
    type V = StoreView;

    closed spec fn view(&self) -> StoreView {
        self.working@
    }
}

impl Transaction {
    #[verifier::type_invariant]
    spec fn grows(&self) -> bool {
        keeps(self.committed@, self.working@)
    }

    /// The store as it was when the transaction began.
    pub closed spec fn origin(&self) -> StoreView {
        self.committed@
    }

    /// Moves both stores out, leaving an empty transaction behind.
    fn take(&mut self) -> (taken: Transaction)
        ensures
            taken == *old(self),
    {
        let mut taken = Transaction {
            committed: SubscriptionStore::new(),
            working: SubscriptionStore::new(),
        };
        core::mem::swap(self, &mut taken);
        taken
    }

    /// Makes every write of the transaction part of the store, at once, and
    /// hands the store back. The store keeps what it held when the
    /// transaction began.
    pub fn commit(self) -> (store: SubscriptionStore)
        ensures
            store@ == self@,
            keeps(self.origin(), store@),
    {
        proof {
            use_type_invariant(&self);
        }
        self.working
    }

    /// Discards every write of the transaction and hands the store back as
    /// it was when the transaction began.
    pub fn rollback(self) -> (store: SubscriptionStore)
        ensures
            store@ == self.origin(),
            store@.well_formed(),
    {
        proof {
            use_type_invariant(&self.committed);
        }
        self.committed
    }

    /// Inserts `row`. A row whose id is taken is refused as a constraint
    /// violation, and the transaction is left as it was.
    pub fn insert(&mut self, row: Subscriber) -> (inserted: Result<(), StorageError>)
        ensures
            inserted is Ok <==> old(self)@.accepts_subscriber(row.id),
            inserted matches Err(error) ==> error is ConstraintViolation && error.report()
                == subscriber_refused(),
            final(self)@ == if inserted is Ok {
                old(self)@.with_subscriber(row@)
            } else {
                old(self)@
            },
            final(self).origin() == old(self).origin(),
    {
        proof {
            use_type_invariant(&*self);
        }
        let Transaction { committed, mut working } = self.take();
        let ghost before = working@;
        let inserted = working.insert_row(row);
        proof {
            use_type_invariant(&working);
            lemma_keeps_on(committed@, before, working@);
        }
        *self = Transaction { committed, working };
        if inserted {
            Ok(())
        } else {
            Err(StorageError::ConstraintViolation("subscriber id is already taken".to_owned()))
        }
    }

    /// Binds `token` to `subscriber_id`. A token that is bound already, or a
    /// subscriber that is missing, is refused as a constraint violation, and
    /// the transaction is left as it was.
    pub fn bind(
        &mut self,
        subscriber_id: SubscriberId,
        token: String,
    ) -> (bound: Result<(), StorageError>)
        ensures
            bound is Ok <==> old(self)@.accepts_token(token@, subscriber_id),
            bound matches Err(error) ==> error is ConstraintViolation && error.report()
                == token_refused(),
            final(self)@ == if bound is Ok {
                old(self)@.with_token(token@, subscriber_id)
            } else {
                old(self)@
            },
            final(self).origin() == old(self).origin(),
    {
        proof {
            use_type_invariant(&*self);
        }
        let Transaction { committed, mut working } = self.take();
        let ghost before = working@;
        let inserted = working.insert_token(subscriber_id, token);
        proof {
            use_type_invariant(&working);
            lemma_keeps_on(committed@, before, working@);
        }
        *self = Transaction { committed, working };
        if inserted {
            Ok(())
        } else {
            Err(
                StorageError::ConstraintViolation(
                    "subscription token is already bound or its subscriber is missing".to_owned(),
                ),
            )
        }
    }
}

/// Inserts `new_subscriber` under a freshly drawn id, pending confirmation
/// and stamped with the current time, and returns the id.
///
/// Fails with a constraint violation, leaving the transaction as it was,
/// exactly when the drawn id is already taken. So it succeeds wherever no id
/// that may be drawn is taken, as in a store without subscribers.
pub fn insert_subscriber(
    transaction: &mut Transaction,
    new_subscriber: &NewSubscriber,
) -> (inserted: Result<SubscriberId, StorageError>)
    ensures
        match inserted {
            Ok(id) => is_version_4(id.0) && old(transaction)@.accepts_subscriber(id)
                && final(transaction)@ == old(transaction)@.with_subscriber(
                pending_subscriber(
                    id,
                    new_subscriber.name@,
                    new_subscriber.email@,
                    final(transaction)@.subscribers[id].subscribed_at,
                ),
            ),
            Err(error) => error is ConstraintViolation && error.report() == subscriber_refused()
                && final(transaction)@ == old(transaction)@,
        },
        inserted is Err ==> old(transaction)@.holds_drawn_id(),
        final(transaction).origin() == old(transaction).origin(),
{
    let id = new_subscriber_id();
    let row = Subscriber::pending(id, new_subscriber, now_micros());
    match transaction.insert(row) {
        Ok(()) => Ok(id),
        Err(error) => Err(error),
    }
}

/// Binds `subscription_token` to `subscriber_id`.
///
/// Fails with a constraint violation, leaving the transaction as it was,
/// exactly when the token is already bound or no such subscriber exists.
pub fn store_token(
    transaction: &mut Transaction,
    subscriber_id: SubscriberId,
    subscription_token: &str,
) -> (stored: Result<(), StorageError>)
    ensures
        stored is Ok <==> old(transaction)@.accepts_token(subscription_token@, subscriber_id),
        stored matches Err(error) ==> error is ConstraintViolation && error.report()
            == token_refused(),
        final(transaction)@ == if stored is Ok {
            old(transaction)@.with_token(subscription_token@, subscriber_id)
        } else {
            old(transaction)@
        },
        final(transaction).origin() == old(transaction).origin(),
{
    transaction.bind(subscriber_id, subscription_token.to_owned())
}

/// Marks the subscriber `subscriber_id` as confirmed. A subscriber that is
/// confirmed already stays so, and an id that names no subscriber changes
/// nothing.
pub fn confirm_subscriber(store: &mut SubscriptionStore, subscriber_id: SubscriberId)
    ensures
        final(store)@ == old(store)@.with_confirmed(subscriber_id),
        keeps(old(store)@, final(store)@),
{
    proof {
        use_type_invariant(&*store);
    }
    match store.position_of_subscriber(subscriber_id) {
        Some(i) => {
            let SubscriptionStore { mut subscribers, tokens, model } = store.take();
            let mut row = subscribers[i].duplicate();
            row.status = SubscriptionStatus::Confirmed;
            proof {
                lemma_confirm_subscriber(subscribers@, model@.subscribers, i as int, row);
            }
            subscribers.set(i, row);
            *store = SubscriptionStore {
                subscribers,
                tokens,
                model: Ghost(model@.with_confirmed(subscriber_id)),
            };
        },
        None => {},
    }
}

/// The subscriber that `subscription_token` is bound to, or `None` where the
/// token was never issued.
pub fn get_subscriber_id_from_token(
    store: &SubscriptionStore,
    subscription_token: &str,
) -> (found: Option<SubscriberId>)
    ensures
        found == store@.subscriber_of(subscription_token@),
{
    proof {
        use_type_invariant(store);
    }
    match store.position_of_token(&subscription_token.to_owned()) {
        Some(i) => Some(store.tokens[i].subscriber_id),
        None => None,
    }
}

} // verus!
