use crate::new_subscriber::NewSubscriber;
use crate::subscriber_email::email_syntax_ok;
use crate::subscriber_name::name_problem;
use chrono::Utc;
use uuid::Uuid;
use vstd::prelude::*;

verus! {

/// Relies on `uuid::Uuid::new_v4` and `Uuid::as_u128`: a random identifier.
/// Nothing is known of its value. `new_v4` panics only where the operating
/// system's random source fails.
#[verifier::external_body]
fn fresh_subscriber_id() -> (r: u128) {
    Uuid::new_v4().as_u128()
}

/// A lower-case hexadecimal digit.
pub open spec fn is_lower_hex_digit(c: char) -> bool {
    let u = c as u32;
    (0x30 <= u && u <= 0x39) || (0x61 <= u && u <= 0x66)
}

/// A UUID in lower-case hyphenated text: 36 characters, hex digits in
/// groups of 8, 4, 4, 4 and 12, separated by `-`.
pub open spec fn is_hyphenated_uuid(s: Seq<char>) -> bool {
    &&& s.len() == 36
    &&& forall|i: int|
        0 <= i < 36 ==> if i == 8 || i == 13 || i == 18 || i == 23 {
            #[trigger] s[i] == '-'
        } else {
            is_lower_hex_digit(s[i])
        }
}

/// Relies on `uuid::Uuid::new_v4` and its `Display`, which writes the
/// lower-case hyphenated form: a random identifier whose value is unknown
/// but whose text always has that form.
#[verifier::external_body]
fn fresh_token() -> (r: String)
    ensures
        is_hyphenated_uuid(r@),
{
    Uuid::new_v4().to_string()
}

/// Relies on `chrono::Utc::now` and `DateTime::timestamp`: the current time
/// in seconds since the Unix epoch. Nothing is known of its value.
#[verifier::external_body]
fn now_timestamp() -> (r: i64) {
    Utc::now().timestamp()
}

/// Where a subscriber stands in its lifecycle.
#[derive(Debug, Clone, Copy, PartialEq, Eq, Structural)]
pub enum SubscriptionStatus {
    PendingConfirmation,
    Confirmed,
}

impl SubscriptionStatus {
    /// The name under which the status is persisted.
    pub fn as_str(&self) -> (r: &'static str)
        ensures
            *self == SubscriptionStatus::PendingConfirmation ==> r@ == "pending_confirmation"@,
            *self == SubscriptionStatus::Confirmed ==> r@ == "confirmed"@,
    {
        match self {
            SubscriptionStatus::PendingConfirmation => "pending_confirmation",
            SubscriptionStatus::Confirmed => "confirmed",
        }
    }
}

/// A persisted subscriber.
pub struct Subscriber {
    pub id: u128,
    pub email: String,
    pub name: String,
    pub subscribed_at: i64,
    pub status: SubscriptionStatus,
}

/// What a subscriber row holds, as values.
pub struct SubscriberRow {
    pub id: u128,
    pub email: Seq<char>,
    pub name: Seq<char>,
    pub subscribed_at: i64,
    pub status: SubscriptionStatus,
}

impl View for Subscriber {
    type V = SubscriberRow;

    open spec fn view(&self) -> SubscriberRow {
        SubscriberRow {
            id: self.id,
            email: self.email@,
            name: self.name@,
            subscribed_at: self.subscribed_at,
            status: self.status,
        }
    }
}

/// A confirmation token and the subscriber it confirms.
pub struct ConfirmationToken {
    pub token: String,
    pub subscriber_id: u128,
}

/// The contents of the store: the subscriber rows and the token rows, in
/// the order they were written.
pub struct StoreModel {
    pub subscribers: Seq<SubscriberRow>,
    pub tokens: Seq<(Seq<char>, u128)>,
}

/// Why the store refused a write. A refused write leaves the store as it was.
#[derive(Debug, Clone, Copy, PartialEq, Eq, Structural)]
pub enum StoreError {
    /// The subscriber identifier is taken.
    DuplicateSubscriberId,
    /// The token is taken.
    DuplicateToken,
    /// The storage engine failed or could not be reached.
    Unavailable,
}

/// What a confirmation found.
#[derive(Debug, Clone, Copy, PartialEq, Eq, Structural)]
pub enum ConfirmationOutcome {
    Confirmed,
    TokenNotFound,
}

pub open spec fn has_id(m: StoreModel, id: u128) -> bool {
    exists|i: int| 0 <= i < m.subscribers.len() && (#[trigger] m.subscribers[i]).id == id
}

pub open spec fn has_token(m: StoreModel, t: Seq<char>) -> bool {
    exists|i: int| 0 <= i < m.tokens.len() && (#[trigger] m.tokens[i]).0 == t
}

/// The token `t` was issued for the subscriber `id`.
pub open spec fn owns(m: StoreModel, t: Seq<char>, id: u128) -> bool {
    exists|i: int| 0 <= i < m.tokens.len() && #[trigger] m.tokens[i] == (t, id)
}

/// A row's name and address passed validation.
pub open spec fn row_valid(r: SubscriberRow) -> bool {
    name_problem(r.name) is None && email_syntax_ok(r.email)
}

/// Identifiers and tokens are keys, each token belongs to a subscriber that
/// exists, and every row holds a validated name and address.
pub open spec fn model_wf(m: StoreModel) -> bool {
    &&& forall|i: int| 0 <= i < m.subscribers.len() ==> row_valid(#[trigger] m.subscribers[i])
    &&& forall|i: int, j: int|
        0 <= i < m.subscribers.len() && 0 <= j < m.subscribers.len() && (#[trigger] m.subscribers[i]).id
            == (#[trigger] m.subscribers[j]).id ==> i == j
    &&& forall|i: int, j: int|
        0 <= i < m.tokens.len() && 0 <= j < m.tokens.len() && (#[trigger] m.tokens[i]).0
            == (#[trigger] m.tokens[j]).0 ==> i == j
    &&& forall|i: int| 0 <= i < m.tokens.len() ==> has_id(m, (#[trigger] m.tokens[i]).1)
}

/// A new subscriber row, waiting for confirmation.
pub open spec fn pending_row(id: u128, email: Seq<char>, name: Seq<char>, at: i64) -> SubscriberRow {
    SubscriberRow {
        id,
        email,
        name,
        subscribed_at: at,
        status: SubscriptionStatus::PendingConfirmation,
    }
}

/// The store after a registration: one pending subscriber row and one
/// token row that points at it, written together.
pub open spec fn registered(
    m: StoreModel,
    id: u128,
    email: Seq<char>,
    name: Seq<char>,
    at: i64,
    token: Seq<char>,
) -> StoreModel {
    StoreModel {
        subscribers: m.subscribers.push(pending_row(id, email, name, at)),
        tokens: m.tokens.push((token, id)),
    }
}

pub open spec fn confirmed_row(r: SubscriberRow) -> SubscriberRow {
    SubscriberRow { status: SubscriptionStatus::Confirmed, ..r }
}

/// The store after redeeming `t`: every subscriber that `t` was issued for
/// is confirmed, and nothing else changes. Redeeming a token again changes
/// nothing more.
pub open spec fn confirmed(m: StoreModel, t: Seq<char>) -> StoreModel {
    StoreModel {
        subscribers: m.subscribers.map_values(
            |r: SubscriberRow|
                if owns(m, t, r.id) {
                    confirmed_row(r)
                } else {
                    r
                },
        ),
        tokens: m.tokens,
    }
}

/// Some subscriber row is reached through the token `t`.
pub open spec fn reaches_subscriber(m: StoreModel, t: Seq<char>) -> bool {
    exists|i: int| 0 <= i < m.subscribers.len() && owns(m, t, (#[trigger] m.subscribers[i]).id)
}

/// The subscriber rows and the confirmation token rows, held in memory.
/// This is the verified model of the two tables: the HTTP service writes
/// its Postgres tables with SQL statements of its own, which this type does
/// not run, and the proofs here speak of this model alone. An address may
/// be registered more than once: each registration is a pending row of its
/// own.
pub struct SubscriptionStore {
    subscribers: Vec<Subscriber>,
    tokens: Vec<ConfirmationToken>,
}

impl View for SubscriptionStore {
    type V = StoreModel;

    closed spec fn view(&self) -> StoreModel {
        StoreModel {
            subscribers: self.subscribers@.map_values(|s: Subscriber| s@),
            tokens: self.tokens@.map_values(|t: ConfirmationToken| (t.token@, t.subscriber_id)),
        }
    }
}

impl SubscriptionStore {
    pub open spec fn wf(&self) -> bool {
        model_wf(self@)
    }

    pub fn new() -> (r: SubscriptionStore)
        ensures
            r.wf(),
            r@.subscribers.len() == 0,
            r@.tokens.len() == 0,
    {
        let r = SubscriptionStore { subscribers: Vec::new(), tokens: Vec::new() };
        proof {
            assert(r@.subscribers =~= Seq::<SubscriberRow>::empty());
            assert(r@.tokens =~= Seq::<(Seq<char>, u128)>::empty());
        }
        r
    }

    fn find_subscriber(&self, id: u128) -> (r: Option<usize>)
        ensures
            r is Some <==> has_id(self@, id),
            r is Some ==> r->0 < self@.subscribers.len() && self@.subscribers[r->0 as int].id == id,
    {
        let mut i: usize = 0;
        while i < self.subscribers.len()
            invariant
                i <= self.subscribers@.len(),
                self@.subscribers.len() == self.subscribers@.len(),
                forall|j: int| 0 <= j < i ==> (#[trigger] self@.subscribers[j]).id != id,
            decreases self.subscribers@.len() - i,
        {
            if self.subscribers[i].id == id {
                assert(self@.subscribers[i as int].id == id);
                return Some(i);
            }
            i += 1;
        }
        None
    }

    fn find_token(&self, t: &String) -> (r: Option<usize>)
        ensures
            r is Some <==> has_token(self@, t@),
            r is Some ==> r->0 < self@.tokens.len() && self@.tokens[r->0 as int].0 == t@,
    {
        let mut i: usize = 0;
        while i < self.tokens.len()
            invariant
                i <= self.tokens@.len(),
                self@.tokens.len() == self.tokens@.len(),
                forall|j: int| 0 <= j < i ==> (#[trigger] self@.tokens[j]).0 != t@,
            decreases self.tokens@.len() - i,
        {
            if self.tokens[i].token == *t {
                assert(self@.tokens[i as int].0 == t@);
                return Some(i);
            }
            i += 1;
        }
        None
    }

    /// Writes a pending subscriber row and the token row that points at it,
    /// both or neither. The identifier and the token are keys: a write that
    /// repeats one is refused and nothing is written.
    pub fn register_subscriber(
        &mut self,
        subscriber: &NewSubscriber,
        id: u128,
        token: String,
        subscribed_at: i64,
    ) -> (r: Result<String, StoreError>)
        requires
            old(self).wf(),
        ensures
            final(self).wf(),
            has_id(old(self)@, id) ==> r == Err::<String, StoreError>(
                StoreError::DuplicateSubscriberId,
            ) && final(self)@ == old(self)@,
            !has_id(old(self)@, id) && has_token(old(self)@, token@) ==> r == Err::<
                String,
                StoreError,
            >(StoreError::DuplicateToken) && final(self)@ == old(self)@,
            !has_id(old(self)@, id) && !has_token(old(self)@, token@) ==> r is Ok && r->Ok_0@
                == token@ && final(self)@ == registered(
                old(self)@,
                id,
                subscriber.email@,
                subscriber.name@,
                subscribed_at,
                token@,
            ),
    {
        if self.find_subscriber(id).is_some() {
            return Err(StoreError::DuplicateSubscriberId);
        }
        if self.find_token(&token).is_some() {
            return Err(StoreError::DuplicateToken);
        }
        let ghost m0 = self@;
        let row = Subscriber {
            id,
            email: String::from_str(subscriber.email.as_ref()),
            name: String::from_str(subscriber.name.as_ref()),
            subscribed_at,
            status: SubscriptionStatus::PendingConfirmation,
        };
        let issued = token.clone();
        self.subscribers.push(row);
        self.tokens.push(ConfirmationToken { token, subscriber_id: id });
        proof {
            let m1 = registered(m0, id, subscriber.email@, subscriber.name@, subscribed_at, issued@);
            assert(self@.subscribers =~= m1.subscribers);
            assert(self@.tokens =~= m1.tokens);
            let n = m0.subscribers.len();
            assert(self@.subscribers[n as int].id == id);
            assert forall|i: int| 0 <= i < self@.tokens.len() implies has_id(
                self@,
                (#[trigger] self@.tokens[i]).1,
            ) by {
                if i < m0.tokens.len() {
                    let k = choose|k: int|
                        0 <= k < m0.subscribers.len() && (#[trigger] m0.subscribers[k]).id
                            == m0.tokens[i].1;
                    assert(self@.subscribers[k] == m0.subscribers[k]);
                } else {
                    assert(self@.subscribers[n as int].id == id);
                }
            }
            assert forall|i: int, j: int|
                0 <= i < self@.subscribers.len() && 0 <= j < self@.subscribers.len() && (
                #[trigger] self@.subscribers[i]).id == (#[trigger] self@.subscribers[j]).id implies i
                == j by {
                if i < n && j == n {
                    assert(m0.subscribers[i].id == id);
                }
                if j < n && i == n {
                    assert(m0.subscribers[j].id == id);
                }
            }
            assert forall|i: int, j: int|
                0 <= i < self@.tokens.len() && 0 <= j < self@.tokens.len() && (
                #[trigger] self@.tokens[i]).0 == (#[trigger] self@.tokens[j]).0 implies i == j by {
                let t = m0.tokens.len();
                if i < t && j == t {
                    assert(m0.tokens[i].0 == issued@);
                }
                if j < t && i == t {
                    assert(m0.tokens[j].0 == issued@);
                }
            }
        }
        Ok(issued)
    }

    /// Confirms every subscriber that the token was issued for. The token
    /// stays valid: redeeming it again confirms again, which changes nothing.
    pub fn confirm_subscriber(&mut self, token: &str) -> (r: ConfirmationOutcome)
        requires
            old(self).wf(),
        ensures
            final(self).wf(),
            final(self)@ == confirmed(old(self)@, token@),
            r == ConfirmationOutcome::Confirmed <==> reaches_subscriber(old(self)@, token@),
    {
        let ghost m0 = self@;
        let t = token.to_owned();
        let found = self.find_token(&t);
        match found {
            None => {
                proof {
                    assert forall|x: u128| !owns(m0, t@, x) by {
                        if owns(m0, t@, x) {
                            let i = choose|i: int| 0 <= i < m0.tokens.len() && #[trigger] m0.tokens[i] == (t@, x);
                            assert(m0.tokens[i].0 == t@);
                        }
                    }
                    assert(self@.subscribers =~= confirmed(m0, t@).subscribers);
                }
                ConfirmationOutcome::TokenNotFound
            },
            Some(k) => {
                let id = self.tokens[k].subscriber_id;
                proof {
                    assert(m0.tokens[k as int] == (t@, id));
                    assert forall|x: u128| owns(m0, t@, x) <==> x == id by {
                        if owns(m0, t@, x) {
                            let i = choose|i: int| 0 <= i < m0.tokens.len() && #[trigger] m0.tokens[i] == (t@, x);
                            assert(m0.tokens[i].0 == m0.tokens[k as int].0);
                        }
                    }
                }
                let mut hit = false;
                let mut i: usize = 0;
                while i < self.subscribers.len()
                    invariant
                        i <= self.subscribers@.len(),
                        self.tokens@ == old(self).tokens@,
                        self@.tokens == m0.tokens,
                        self.subscribers@.len() == m0.subscribers.len(),
                        forall|x: u128| owns(m0, t@, x) <==> x == id,
                        forall|j: int| 0 <= j < i ==> (#[trigger] self.subscribers@[j])@ == (if m0.subscribers[j].id == id { confirmed_row(m0.subscribers[j]) } else { m0.subscribers[j] }),
                        forall|j: int| i <= j < self.subscribers@.len() ==> (#[trigger] self.subscribers@[j])@ == m0.subscribers[j],
                        hit <==> exists|j: int| 0 <= j < i && (#[trigger] m0.subscribers[j]).id == id,
                    decreases self.subscribers@.len() - i,
                {
                    if self.subscribers[i].id == id {
                        self.subscribers[i].status = SubscriptionStatus::Confirmed;
                        hit = true;
                    }
                    i += 1;
                }
                proof {
                    let m1 = confirmed(m0, t@);
                    assert forall|a: int| 0 <= a < m1.subscribers.len() implies #[trigger] self@.subscribers[a] == m1.subscribers[a] by {
                        assert(self@.subscribers[a] == self.subscribers@[a]@);
                    }
                    assert(self@.subscribers =~= m1.subscribers);
                    if hit {
                        let j = choose|j: int| 0 <= j < i && (#[trigger] m0.subscribers[j]).id == id;
                        assert(owns(m0, t@, m0.subscribers[j].id));
                    }
                    if reaches_subscriber(m0, t@) {
                        let j = choose|j: int| 0 <= j < m0.subscribers.len() && owns(m0, t@, (#[trigger] m0.subscribers[j]).id);
                        assert(m0.subscribers[j].id == id);
                    }
                    assert forall|a: int| 0 <= a < self@.subscribers.len() implies (#[trigger] self@.subscribers[a]).id == m0.subscribers[a].id by {}
                    assert forall|a: int| 0 <= a < self@.tokens.len() implies has_id(self@, (#[trigger] self@.tokens[a]).1) by {
                        let k2 = choose|k2: int| 0 <= k2 < m0.subscribers.len() && (#[trigger] m0.subscribers[k2]).id == m0.tokens[a].1;
                        assert(self@.subscribers[k2].id == m0.subscribers[k2].id);
                    }
                    assert forall|a: int, b: int| 0 <= a < self@.subscribers.len() && 0 <= b < self@.subscribers.len() && (#[trigger] self@.subscribers[a]).id == (#[trigger] self@.subscribers[b]).id implies a == b by {
                        assert(m0.subscribers[a].id == m0.subscribers[b].id);
                    }
                }
                if hit {
                    ConfirmationOutcome::Confirmed
                } else {
                    ConfirmationOutcome::TokenNotFound
                }
            },
        }
    }

    /// Registers a subscriber under a fresh random identifier and a fresh
    /// random token, stamped with the current time, and returns the token.
    /// Should either draw collide with one already stored, nothing is
    /// written; in an empty store nothing can collide, so it succeeds.
    pub fn register(&mut self, subscriber: &NewSubscriber) -> (r: Result<String, StoreError>)
        requires
            old(self).wf(),
        ensures
            final(self).wf(),
            old(self)@.subscribers.len() == 0 ==> r is Ok,
            r is Err ==> final(self)@ == old(self)@ && r->Err_0 != StoreError::Unavailable
                && old(self)@.subscribers.len() > 0,
            r is Ok ==> is_hyphenated_uuid(r->Ok_0@),
            r is Ok ==> exists|id: u128, at: i64|
                !has_id(old(self)@, id) && !has_token(old(self)@, r->Ok_0@) && final(self)@
                    == #[trigger] registered(
                    old(self)@,
                    id,
                    subscriber.email@,
                    subscriber.name@,
                    at,
                    r->Ok_0@,
                ),
    {
        let id = fresh_subscriber_id();
        let token = fresh_token();
        let at = now_timestamp();
        proof {
            // a token row points at a subscriber row, so an empty store has no tokens
            if has_token(self@, token@) {
                let i = choose|i: int| 0 <= i < self@.tokens.len() && (#[trigger] self@.tokens[i]).0 == token@;
                assert(has_id(self@, self@.tokens[i].1));
            }
        }
        self.register_subscriber(subscriber, id, token, at)
    }

    /// The number of subscriber rows.
    pub fn subscriber_count(&self) -> (r: usize)
        ensures
            r == self@.subscribers.len(),
    {
        self.subscribers.len()
    }

    /// The number of token rows.
    pub fn token_count(&self) -> (r: usize)
        ensures
            r == self@.tokens.len(),
    {
        self.tokens.len()
    }

    /// The subscriber row at position `i`, in the order of registration.
    pub fn subscriber(&self, i: usize) -> (r: &Subscriber)
        requires
            i < self@.subscribers.len(),
        ensures
            r@ == self@.subscribers[i as int],
    {
        &self.subscribers[i]
    }

    /// The status of the subscriber `id`, if there is one.
    pub fn status_of(&self, id: u128) -> (r: Option<SubscriptionStatus>)
        requires
            self.wf(),
        ensures
            r is None <==> !has_id(self@, id),
            r is Some ==> exists|i: int|
                0 <= i < self@.subscribers.len() && (#[trigger] self@.subscribers[i]).id == id
                    && self@.subscribers[i].status == r->0,
    {
        match self.find_subscriber(id) {
            Some(i) => Some(self.subscribers[i].status),
            None => None,
        }
    }
}

/// A registration in a well-formed store whose identifier and token are not
/// yet taken keeps the store well-formed, adds exactly one subscriber row,
/// pending confirmation, and exactly one token row.
pub proof fn registration_adds_one_pending_row(
    m: StoreModel,
    id: u128,
    email: Seq<char>,
    name: Seq<char>,
    at: i64,
    token: Seq<char>,
)
    requires
        model_wf(m),
        !has_id(m, id),
        !has_token(m, token),
        name_problem(name) is None,
        email_syntax_ok(email),
    ensures
        ({
            let m1 = registered(m, id, email, name, at, token);
            &&& model_wf(m1)
            &&& m1.subscribers.len() == m.subscribers.len() + 1
            &&& m1.tokens.len() == m.tokens.len() + 1
            &&& m1.subscribers.last() == pending_row(id, email, name, at)
            &&& m1.subscribers.last().status == SubscriptionStatus::PendingConfirmation
            &&& m1.subscribers.take(m.subscribers.len() as int) == m.subscribers
            &&& owns(m1, token, id)
        }),
{
    let m1 = registered(m, id, email, name, at, token);
    let n = m.subscribers.len();
    let t = m.tokens.len();
    assert(m1.subscribers.take(n as int) =~= m.subscribers);
    assert(m1.tokens[t as int] == (token, id));
    assert(m1.subscribers[n as int].id == id);
    assert forall|i: int| 0 <= i < m1.tokens.len() implies has_id(m1, (#[trigger] m1.tokens[i]).1) by {
        if i < t {
            let k = choose|k: int| 0 <= k < m.subscribers.len() && (#[trigger] m.subscribers[k]).id == m.tokens[i].1;
            assert(m1.subscribers[k] == m.subscribers[k]);
        }
    }
    assert forall|i: int, j: int|
        0 <= i < m1.subscribers.len() && 0 <= j < m1.subscribers.len() && (#[trigger] m1.subscribers[i]).id
            == (#[trigger] m1.subscribers[j]).id implies i == j by {
        if i < n && j == n {
            assert(m.subscribers[i].id == id);
        }
        if j < n && i == n {
            assert(m.subscribers[j].id == id);
        }
    }
    assert forall|i: int, j: int|
        0 <= i < m1.tokens.len() && 0 <= j < m1.tokens.len() && (#[trigger] m1.tokens[i]).0
            == (#[trigger] m1.tokens[j]).0 implies i == j by {
        if i < t && j == t {
            assert(m.tokens[i].0 == token);
        }
        if j < t && i == t {
            assert(m.tokens[j].0 == token);
        }
    }
}

/// Redeeming the token of a registration confirms that subscriber, which was
/// pending, reports success, and leaves every other subscriber as it was.
pub proof fn redeeming_issued_token_confirms(
    m: StoreModel,
    id: u128,
    email: Seq<char>,
    name: Seq<char>,
    at: i64,
    token: Seq<char>,
)
    requires
        model_wf(m),
        !has_id(m, id),
        !has_token(m, token),
        name_problem(name) is None,
        email_syntax_ok(email),
    ensures
        ({
            let m1 = registered(m, id, email, name, at, token);
            let m2 = confirmed(m1, token);
            let n = m.subscribers.len() as int;
            &&& m1.subscribers[n].status == SubscriptionStatus::PendingConfirmation
            &&& reaches_subscriber(m1, token)
            &&& m2.subscribers[n] == confirmed_row(m1.subscribers[n])
            &&& m2.subscribers[n].status == SubscriptionStatus::Confirmed
            &&& forall|i: int| 0 <= i < n ==> #[trigger] m2.subscribers[i] == m.subscribers[i]
            &&& m2.tokens == m1.tokens
        }),
{
    registration_adds_one_pending_row(m, id, email, name, at, token);
    let m1 = registered(m, id, email, name, at, token);
    let n = m.subscribers.len() as int;
    assert(m1.subscribers[n].id == id);
    assert(owns(m1, token, m1.subscribers[n].id));
    assert forall|i: int| 0 <= i < n implies #[trigger] confirmed(m1, token).subscribers[i]
        == m.subscribers[i] by {
        assert(m1.subscribers[i] == m.subscribers[i]);
        if owns(m1, token, m.subscribers[i].id) {
            let k = choose|k: int| 0 <= k < m1.tokens.len() && #[trigger] m1.tokens[k] == (token, m.subscribers[i].id);
            if k < m.tokens.len() {
                assert(m.tokens[k].0 == token);
            } else {
                assert(m.subscribers[i].id == id);
            }
        }
    }
}

/// Redeeming a token that was never issued finds no subscriber and changes
/// nothing.
pub proof fn redeeming_unknown_token_changes_nothing(m: StoreModel, token: Seq<char>)
    requires
        !has_token(m, token),
    ensures
        !reaches_subscriber(m, token),
        confirmed(m, token) == m,
{
    assert forall|x: u128| !owns(m, token, x) by {
        if owns(m, token, x) {
            let i = choose|i: int| 0 <= i < m.tokens.len() && #[trigger] m.tokens[i] == (token, x);
            assert(m.tokens[i].0 == token);
        }
    }
    assert(confirmed(m, token).subscribers =~= m.subscribers);
}

/// Two registrations with distinct identifiers and distinct tokens, neither
/// taken before, both succeed: the second finds its identifier and its token
/// free, and the store then holds both subscribers, each reached by its own
/// token alone.
pub proof fn distinct_registrations_both_succeed(
    m: StoreModel,
    id1: u128,
    email1: Seq<char>,
    name1: Seq<char>,
    at1: i64,
    token1: Seq<char>,
    id2: u128,
    email2: Seq<char>,
    name2: Seq<char>,
    at2: i64,
    token2: Seq<char>,
)
    requires
        model_wf(m),
        !has_id(m, id1),
        !has_token(m, token1),
        !has_id(m, id2),
        !has_token(m, token2),
        name_problem(name1) is None,
        email_syntax_ok(email1),
        name_problem(name2) is None,
        email_syntax_ok(email2),
        id1 != id2,
        token1 != token2,
    ensures
        ({
            let m1 = registered(m, id1, email1, name1, at1, token1);
            let m2 = registered(m1, id2, email2, name2, at2, token2);
            &&& !has_id(m1, id2)
            &&& !has_token(m1, token2)
            &&& model_wf(m2)
            &&& m2.subscribers.len() == m.subscribers.len() + 2
            &&& owns(m2, token1, id1) && !owns(m2, token1, id2)
            &&& owns(m2, token2, id2) && !owns(m2, token2, id1)
        }),
{
    registration_adds_one_pending_row(m, id1, email1, name1, at1, token1);
    let m1 = registered(m, id1, email1, name1, at1, token1);
    let n = m.subscribers.len() as int;
    let t = m.tokens.len() as int;
    if has_id(m1, id2) {
        let i = choose|i: int| 0 <= i < m1.subscribers.len() && (#[trigger] m1.subscribers[i]).id == id2;
        if i < n {
            assert(m.subscribers[i].id == id2);
        }
    }
    if has_token(m1, token2) {
        let i = choose|i: int| 0 <= i < m1.tokens.len() && (#[trigger] m1.tokens[i]).0 == token2;
        if i < t {
            assert(m.tokens[i].0 == token2);
        }
    }
    registration_adds_one_pending_row(m1, id2, email2, name2, at2, token2);
    let m2 = registered(m1, id2, email2, name2, at2, token2);
    assert(m2.tokens[t] == (token1, id1));
    assert(m2.tokens[t + 1] == (token2, id2));
    if owns(m2, token1, id2) {
        let k = choose|k: int| 0 <= k < m2.tokens.len() && #[trigger] m2.tokens[k] == (token1, id2);
        assert(m2.tokens[k].0 == m2.tokens[t].0);
    }
    if owns(m2, token2, id1) {
        let k = choose|k: int| 0 <= k < m2.tokens.len() && #[trigger] m2.tokens[k] == (token2, id1);
        assert(m2.tokens[k].0 == m2.tokens[t + 1].0);
    }
}

} // verus!
