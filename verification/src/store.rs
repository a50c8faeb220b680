//! The relational store as the services see it: three tables, the constraints
//! that the schema puts on them, and transactions. `Store` keeps the tables
//! in memory; it is the model against which the services are stated.

use crate::auth::{StoredCredential, StoredCredentialView};
use crate::domain::subscriber::SubscriberView;
use crate::domain::{Email, Subscriber, SubscriberName};
use vstd::prelude::*;
use vstd::string::*;

verus! {

/// Where a subscriber stands. A new subscriber is pending; confirmation is
/// the only change there is.
#[derive(Clone, Copy, Debug, PartialEq, Eq, Structural)]
pub enum Status {
    PendingConfirmation,
    Confirmed,
}

impl Status {
    /// The status as the store writes it.
    pub fn as_str(&self) -> (s: &'static str)
        ensures
            *self == Status::PendingConfirmation ==> s@ == "pending_confirmation"@,
            *self == Status::Confirmed ==> s@ == "confirmed"@,
    {
        match self {
            Status::PendingConfirmation => "pending_confirmation",
            Status::Confirmed => "confirmed",
        }
    }
}

/// How the store answered a statement.
#[derive(Clone, Copy, Debug, PartialEq, Eq, Structural)]
pub enum StoreOutcome {
    /// The statement took effect.
    Done,
    /// The statement was refused because a value that must be unique is taken.
    UniqueViolation,
    /// The statement failed for another reason.
    Failed,
}

/// The SQLSTATE of a unique violation.
pub open spec fn unique_violation_code() -> Seq<char> {
    "23505"@
}

/// The outcome that the SQLSTATE of a failed statement stands for; `None`
/// where the failure carries no SQLSTATE.
pub open spec fn failure_of(sqlstate: Option<Seq<char>>) -> StoreOutcome {
    if sqlstate == Some(unique_violation_code()) {
        StoreOutcome::UniqueViolation
    } else {
        StoreOutcome::Failed
    }
}

impl StoreOutcome {
    /// Classifies a failed statement by its SQLSTATE.
    pub fn from_sqlstate(sqlstate: Option<&str>) -> (outcome: StoreOutcome)
        ensures
            outcome == failure_of(
                match sqlstate {
                    Some(code) => Some(code@),
                    None => None,
                },
            ),
    {
        match sqlstate {
            Some(code) => if *code == *"23505" {
                StoreOutcome::UniqueViolation
            } else {
                StoreOutcome::Failed
            },
            None => StoreOutcome::Failed,
        }
    }
}

/// A row of `subscriptions`.
#[derive(Debug)]
pub struct SubscriberRow {
    pub id: u128,
    pub email: Email,
    pub name: SubscriberName,
    /// Microseconds since the Unix epoch.
    pub subscribed_at: i64,
    pub status: Status,
}

/// A row of `subscriptions` with its texts as sequences.
pub struct SubscriberRowView {
    pub id: u128,
    pub email: Seq<char>,
    pub name: Seq<char>,
    pub subscribed_at: i64,
    pub status: Status,
}

impl View for SubscriberRow {
    type V = SubscriberRowView;

    open spec fn view(&self) -> SubscriberRowView {
        SubscriberRowView {
            id: self.id,
            email: self.email@,
            name: self.name@,
            subscribed_at: self.subscribed_at,
            status: self.status,
        }
    }
}

impl Clone for SubscriberRow {
    fn clone(&self) -> (r: Self)
        ensures
            r@ == self@,
    {
        SubscriberRow {
            id: self.id,
            email: self.email.clone(),
            name: self.name.clone(),
            subscribed_at: self.subscribed_at,
            status: self.status,
        }
    }
}

impl SubscriberRowView {
    /// The row with its status set to confirmed.
    pub open spec fn confirmed(self) -> SubscriberRowView {
        SubscriberRowView { status: Status::Confirmed, ..self }
    }

    /// The subscriber that the row describes.
    pub open spec fn subscriber(self) -> SubscriberView {
        SubscriberView { name: self.name, email: self.email }
    }
}

/// A row of `subscription_tokens`.
#[derive(Debug)]
pub struct TokenRow {
    pub subscription_token: String,
    pub subscriber_id: u128,
}

/// A row of `subscription_tokens` with its token as a sequence.
pub struct TokenRowView {
    pub subscription_token: Seq<char>,
    pub subscriber_id: u128,
}

impl View for TokenRow {
    type V = TokenRowView;

    open spec fn view(&self) -> TokenRowView {
        TokenRowView {
            subscription_token: self.subscription_token@,
            subscriber_id: self.subscriber_id,
        }
    }
}

impl Clone for TokenRow {
    fn clone(&self) -> (r: Self)
        ensures
            r@ == self@,
    {
        TokenRow {
            subscription_token: self.subscription_token.clone(),
            subscriber_id: self.subscriber_id,
        }
    }
}

/// A row of `users`.
#[derive(Debug)]
pub struct UserRow {
    pub id: u128,
    pub username: String,
    pub password_hash: String,
}

/// A row of `users` with its texts as sequences.
pub struct UserRowView {
    pub id: u128,
    pub username: Seq<char>,
    pub password_hash: Seq<char>,
}

impl View for UserRow {
    type V = UserRowView;

    open spec fn view(&self) -> UserRowView {
        UserRowView {
            id: self.id,
            username: self.username@,
            password_hash: self.password_hash@,
        }
    }
}

impl Clone for UserRow {
    fn clone(&self) -> (r: Self)
        ensures
            r@ == self@,
    {
        UserRow {
            id: self.id,
            username: self.username.clone(),
            password_hash: self.password_hash.clone(),
        }
    }
}

impl UserRowView {
    /// What the credential check reads of the row.
    pub open spec fn credential(self) -> StoredCredentialView {
        StoredCredentialView { id: self.id, password_hash: self.password_hash }
    }
}

/// The subscribers that the confirmed rows among `rows` describe, in the
/// order of the rows.
pub open spec fn confirmed_among(rows: Seq<SubscriberRowView>) -> Seq<SubscriberView> {
    rows.filter(|row: SubscriberRowView| row.status == Status::Confirmed).map_values(
        |row: SubscriberRowView| row.subscriber(),
    )
}

/// One more row adds its subscriber to the confirmed ones if it is confirmed,
/// and nothing if it is not.
pub proof fn lemma_confirmed_among_push(rows: Seq<SubscriberRowView>, row: SubscriberRowView)
    ensures
        confirmed_among(rows.push(row)) == if row.status == Status::Confirmed {
            confirmed_among(rows).push(row.subscriber())
        } else {
            confirmed_among(rows)
        },
{
    let confirmed = |row: SubscriberRowView| row.status == Status::Confirmed;
    rows.lemma_filter_push(row, confirmed);
    if row.status == Status::Confirmed {
        assert(confirmed_among(rows.push(row)) =~= confirmed_among(rows).push(row.subscriber()));
    }
}

/// No more subscribers are confirmed than there are rows.
pub proof fn lemma_confirmed_among_len(rows: Seq<SubscriberRowView>)
    ensures
        confirmed_among(rows).len() <= rows.len(),
{
    rows.lemma_filter_len(|row: SubscriberRowView| row.status == Status::Confirmed);
}

/// The contents of the three tables, each in the order of insertion.
#[verifier::ext_equal]
pub struct TablesView {
    pub subscriptions: Seq<SubscriberRowView>,
    pub subscription_tokens: Seq<TokenRowView>,
    pub users: Seq<UserRowView>,
}

impl TablesView {
    /// The tables with no row in them.
    pub open spec fn empty() -> TablesView {
        TablesView {
            subscriptions: Seq::empty(),
            subscription_tokens: Seq::empty(),
            users: Seq::empty(),
        }
    }

    /// Whether a subscriber has this identity.
    pub open spec fn has_subscriber(self, id: u128) -> bool {
        exists|i: int|
            0 <= i < self.subscriptions.len() && (#[trigger] self.subscriptions[i]).id == id
    }

    /// Whether a subscriber has this address.
    pub open spec fn has_email(self, email: Seq<char>) -> bool {
        exists|i: int|
            0 <= i < self.subscriptions.len() && (#[trigger] self.subscriptions[i]).email == email
    }

    /// Whether this token is bound to a subscriber.
    pub open spec fn has_token(self, token: Seq<char>) -> bool {
        exists|i: int|
            0 <= i < self.subscription_tokens.len() && (
            #[trigger] self.subscription_tokens[i]).subscription_token == token
    }

    /// Whether a user has this name.
    pub open spec fn has_user(self, username: Seq<char>) -> bool {
        exists|i: int| 0 <= i < self.users.len() && (#[trigger] self.users[i]).username == username
    }

    /// What the schema demands: identities, addresses, tokens and user names
    /// are unique, and every token is bound to a subscriber that exists.
    pub open spec fn constraints_hold(self) -> bool {
        &&& forall|i: int, j: int|
            0 <= i < j < self.subscriptions.len() ==> (#[trigger] self.subscriptions[i]).id != (
            #[trigger] self.subscriptions[j]).id
        &&& forall|i: int, j: int|
            0 <= i < j < self.subscriptions.len() ==> (#[trigger] self.subscriptions[i]).email != (
            #[trigger] self.subscriptions[j]).email
        &&& forall|i: int, j: int|
            0 <= i < j < self.subscription_tokens.len() ==> (
            #[trigger] self.subscription_tokens[i]).subscription_token != (
            #[trigger] self.subscription_tokens[j]).subscription_token
        &&& forall|k: int|
            0 <= k < self.subscription_tokens.len() ==> self.has_subscriber(
                (#[trigger] self.subscription_tokens[k]).subscriber_id,
            )
        &&& forall|i: int, j: int|
            0 <= i < j < self.users.len() ==> (#[trigger] self.users[i]).username != (
            #[trigger] self.users[j]).username
    }

    /// `INSERT INTO subscriptions`: refused where the identity or the address
    /// is taken.
    pub open spec fn insert_subscriber(self, row: SubscriberRowView) -> (TablesView, StoreOutcome) {
        if self.has_subscriber(row.id) || self.has_email(row.email) {
            (self, StoreOutcome::UniqueViolation)
        } else {
            (
                TablesView { subscriptions: self.subscriptions.push(row), ..self },
                StoreOutcome::Done,
            )
        }
    }

    /// `INSERT INTO subscription_tokens`: refused where the token is taken,
    /// and fails where no subscriber has the identity it names.
    pub open spec fn insert_token(self, row: TokenRowView) -> (TablesView, StoreOutcome) {
        if self.has_token(row.subscription_token) {
            (self, StoreOutcome::UniqueViolation)
        } else if !self.has_subscriber(row.subscriber_id) {
            (self, StoreOutcome::Failed)
        } else {
            (
                TablesView { subscription_tokens: self.subscription_tokens.push(row), ..self },
                StoreOutcome::Done,
            )
        }
    }

    /// `INSERT INTO users`: refused where the name is taken.
    pub open spec fn insert_user(self, row: UserRowView) -> (TablesView, StoreOutcome) {
        if self.has_user(row.username) {
            (self, StoreOutcome::UniqueViolation)
        } else {
            (TablesView { users: self.users.push(row), ..self }, StoreOutcome::Done)
        }
    }

    /// The position of the row that binds `token`, where there is one.
    pub open spec fn token_position(self, token: Seq<char>) -> int {
        choose|i: int|
            0 <= i < self.subscription_tokens.len() && (
            #[trigger] self.subscription_tokens[i]).subscription_token == token
    }

    /// The subscriber that `token` is bound to.
    pub open spec fn owner_of(self, token: Seq<char>) -> Option<u128> {
        if self.has_token(token) {
            Some(self.subscription_tokens[self.token_position(token)].subscriber_id)
        } else {
            None
        }
    }

    /// The position of the user named `username`, where there is one.
    pub open spec fn user_position(self, username: Seq<char>) -> int {
        choose|i: int| 0 <= i < self.users.len() && (#[trigger] self.users[i]).username == username
    }

    /// What is stored for the user named `username`.
    pub open spec fn credential_of(self, username: Seq<char>) -> Option<StoredCredentialView> {
        if self.has_user(username) {
            Some(self.users[self.user_position(username)].credential())
        } else {
            None
        }
    }

    /// `UPDATE subscriptions SET status = 'confirmed' WHERE id = ..`.
    pub open spec fn confirm(self, id: u128) -> TablesView {
        TablesView {
            subscriptions: self.subscriptions.map_values(
                |row: SubscriberRowView|
                    if row.id == id {
                        row.confirmed()
                    } else {
                        row
                    },
            ),
            ..self
        }
    }

    /// The status of the subscriber with this identity.
    pub open spec fn status_of(self, id: u128) -> Option<Status> {
        if self.has_subscriber(id) {
            Some(
                self.subscriptions[choose|i: int|
                    0 <= i < self.subscriptions.len() && (#[trigger] self.subscriptions[i]).id
                        == id].status,
            )
        } else {
            None
        }
    }

    /// The confirmed subscribers, in the order of the table.
    pub open spec fn confirmed_subscribers(self) -> Seq<SubscriberView> {
        confirmed_among(self.subscriptions)
    }
}

impl TablesView {
    /// An accepted subscriber keeps the constraints.
    pub proof fn lemma_insert_subscriber_keeps_constraints(self, row: SubscriberRowView)
        requires
            self.constraints_hold(),
        ensures
            self.insert_subscriber(row).0.constraints_hold(),
    {
        let after = self.insert_subscriber(row).0;
        if after != self {
            assert forall|k: int| 0 <= k < after.subscription_tokens.len() implies after.has_subscriber(
                (#[trigger] after.subscription_tokens[k]).subscriber_id,
            ) by {
                let id = self.subscription_tokens[k].subscriber_id;
                assert(self.has_subscriber(id));
                let w = choose|i: int|
                    0 <= i < self.subscriptions.len() && (#[trigger] self.subscriptions[i]).id == id;
                assert(after.subscriptions[w].id == id);
            }
        }
    }

    /// An accepted token keeps the constraints.
    pub proof fn lemma_insert_token_keeps_constraints(self, row: TokenRowView)
        requires
            self.constraints_hold(),
        ensures
            self.insert_token(row).0.constraints_hold(),
    {
    }

    /// An accepted user keeps the constraints.
    pub proof fn lemma_insert_user_keeps_constraints(self, row: UserRowView)
        requires
            self.constraints_hold(),
        ensures
            self.insert_user(row).0.constraints_hold(),
    {
    }

    /// Confirming changes nothing but the status of the rows with that
    /// identity, and keeps the constraints.
    pub proof fn lemma_confirm_keeps_constraints(self, id: u128)
        requires
            self.constraints_hold(),
        ensures
            self.confirm(id).constraints_hold(),
            self.confirm(id).subscriptions.len() == self.subscriptions.len(),
            forall|i: int|
                0 <= i < self.subscriptions.len() ==> {
                    let before = #[trigger] self.subscriptions[i];
                    let after = self.confirm(id).subscriptions[i];
                    &&& after.id == before.id
                    &&& after.email == before.email
                    &&& after.name == before.name
                    &&& after.subscribed_at == before.subscribed_at
                    &&& after.status == if before.id == id {
                        Status::Confirmed
                    } else {
                        before.status
                    }
                },
    {
        let after = self.confirm(id);
        assert forall|k: int| 0 <= k < after.subscription_tokens.len() implies after.has_subscriber(
            (#[trigger] after.subscription_tokens[k]).subscriber_id,
        ) by {
            let owner = self.subscription_tokens[k].subscriber_id;
            assert(self.has_subscriber(owner));
            let w = choose|i: int|
                0 <= i < self.subscriptions.len() && (#[trigger] self.subscriptions[i]).id == owner;
            assert(after.subscriptions[w].id == owner);
        }
    }

    /// Where the constraints hold, a token is bound to the subscriber of any
    /// row that holds it.
    pub proof fn lemma_owner_of(self, token: Seq<char>, i: int)
        requires
            self.constraints_hold(),
            0 <= i < self.subscription_tokens.len(),
            self.subscription_tokens[i].subscription_token == token,
        ensures
            self.owner_of(token) == Some(self.subscription_tokens[i].subscriber_id),
    {
        let p = self.token_position(token);
        assert(self.subscription_tokens[p].subscription_token == token);
        if p < i {
        } else if i < p {
        }
    }

    /// Where the constraints hold, the credential of a user is that of any
    /// row with the user's name.
    pub proof fn lemma_credential_of(self, username: Seq<char>, i: int)
        requires
            self.constraints_hold(),
            0 <= i < self.users.len(),
            self.users[i].username == username,
        ensures
            self.credential_of(username) == Some(self.users[i].credential()),
    {
        let p = self.user_position(username);
        assert(self.users[p].username == username);
        if p < i {
        } else if i < p {
        }
    }

    /// Where the constraints hold, the status of a subscriber is that of any
    /// row with the subscriber's identity.
    pub proof fn lemma_status_of(self, id: u128, i: int)
        requires
            self.constraints_hold(),
            0 <= i < self.subscriptions.len(),
            self.subscriptions[i].id == id,
        ensures
            self.status_of(id) == Some(self.subscriptions[i].status),
    {
        let p = choose|p: int|
            0 <= p < self.subscriptions.len() && (#[trigger] self.subscriptions[p]).id == id;
        assert(self.subscriptions[p].id == id);
        if p < i {
        } else if i < p {
        }
    }
}

/// The rows of a table, each as its view.
pub open spec fn subscriber_rows_view(rows: Seq<SubscriberRow>) -> Seq<SubscriberRowView> {
    rows.map_values(|row: SubscriberRow| row@)
}

/// The rows of a table, each as its view.
pub open spec fn token_rows_view(rows: Seq<TokenRow>) -> Seq<TokenRowView> {
    rows.map_values(|row: TokenRow| row@)
}

/// The rows of a table, each as its view.
pub open spec fn user_rows_view(rows: Seq<UserRow>) -> Seq<UserRowView> {
    rows.map_values(|row: UserRow| row@)
}

/// The subscribers of a list, each as its view.
pub open spec fn subscribers_view(list: Seq<Subscriber>) -> Seq<SubscriberView> {
    list.map_values(|subscriber: Subscriber| subscriber@)
}

/// The three tables, held in memory. The constraints of the schema hold of
/// every value of this type.
#[derive(Debug)]
pub struct Tables {
    subscriptions: Vec<SubscriberRow>,
    subscription_tokens: Vec<TokenRow>,
    users: Vec<UserRow>,
}

impl View for Tables {
    type V = TablesView;

    closed spec fn view(&self) -> TablesView {
        TablesView {
            subscriptions: subscriber_rows_view(self.subscriptions@),
            subscription_tokens: token_rows_view(self.subscription_tokens@),
            users: user_rows_view(self.users@),
        }
    }
}

impl Tables {
    #[verifier::type_invariant]
    spec fn well_formed(self) -> bool {
        self@.constraints_hold()
    }

    /// Tables with no row in them.
    pub fn new() -> (tables: Tables)
        ensures
            tables@ == TablesView::empty(),
    {
        let tables = Tables {
            subscriptions: Vec::new(),
            subscription_tokens: Vec::new(),
            users: Vec::new(),
        };
        assert(tables@ =~= TablesView::empty());
        tables
    }

    /// Moves the tables out and leaves empty ones behind.
    fn take(&mut self) -> (tables: Tables)
        ensures
            tables == *old(self),
            final(self)@ == TablesView::empty(),
    {
        let mut tables = Tables::new();
        core::mem::swap(self, &mut tables);
        tables
    }

    /// The rows of `subscriptions`.
    pub fn subscriptions(&self) -> (rows: &Vec<SubscriberRow>)
        ensures
            subscriber_rows_view(rows@) == self@.subscriptions,
            self@.constraints_hold(),
    {
        proof {
            use_type_invariant(self);
        }
        &self.subscriptions
    }

    /// The rows of `subscription_tokens`.
    pub fn subscription_tokens(&self) -> (rows: &Vec<TokenRow>)
        ensures
            token_rows_view(rows@) == self@.subscription_tokens,
            self@.constraints_hold(),
    {
        proof {
            use_type_invariant(self);
        }
        &self.subscription_tokens
    }

    /// The rows of `users`.
    pub fn users(&self) -> (rows: &Vec<UserRow>)
        ensures
            user_rows_view(rows@) == self@.users,
            self@.constraints_hold(),
    {
        proof {
            use_type_invariant(self);
        }
        &self.users
    }

    /// Whether a subscriber has this identity.
    pub fn has_subscriber(&self, id: u128) -> (r: bool)
        ensures
            r == self@.has_subscriber(id),
    {
        let mut i: usize = 0;
        while i < self.subscriptions.len()
            invariant
                i <= self.subscriptions.len(),
                forall|j: int| 0 <= j < i ==> (#[trigger] self@.subscriptions[j]).id != id,
            decreases self.subscriptions.len() - i,
        {
            if self.subscriptions[i].id == id {
                assert(self@.subscriptions[i as int].id == id);
                return true;
            }
            i = i + 1;
        }
        false
    }

    /// Whether a subscriber has this address.
    pub fn has_email(&self, email: &str) -> (r: bool)
        ensures
            r == self@.has_email(email@),
    {
        let mut i: usize = 0;
        while i < self.subscriptions.len()
            invariant
                i <= self.subscriptions.len(),
                forall|j: int| 0 <= j < i ==> (#[trigger] self@.subscriptions[j]).email != email@,
            decreases self.subscriptions.len() - i,
        {
            if *self.subscriptions[i].email.as_str() == *email {
                assert(self@.subscriptions[i as int].email == email@);
                return true;
            }
            i = i + 1;
        }
        false
    }

    /// Whether this token is bound to a subscriber.
    pub fn has_token(&self, token: &str) -> (r: bool)
        ensures
            r == self@.has_token(token@),
    {
        let mut i: usize = 0;
        while i < self.subscription_tokens.len()
            invariant
                i <= self.subscription_tokens.len(),
                forall|j: int|
                    0 <= j < i ==> (#[trigger] self@.subscription_tokens[j]).subscription_token
                        != token@,
            decreases self.subscription_tokens.len() - i,
        {
            if *self.subscription_tokens[i].subscription_token.as_str() == *token {
                assert(self@.subscription_tokens[i as int].subscription_token == token@);
                return true;
            }
            i = i + 1;
        }
        false
    }

    /// Whether a user has this name.
    pub fn has_user(&self, username: &str) -> (r: bool)
        ensures
            r == self@.has_user(username@),
    {
        let mut i: usize = 0;
        while i < self.users.len()
            invariant
                i <= self.users.len(),
                forall|j: int| 0 <= j < i ==> (#[trigger] self@.users[j]).username != username@,
            decreases self.users.len() - i,
        {
            if *self.users[i].username.as_str() == *username {
                assert(self@.users[i as int].username == username@);
                return true;
            }
            i = i + 1;
        }
        false
    }

    /// Inserts a row into `subscriptions`, unless its identity or its address
    /// is taken.
    pub fn insert_subscriber(&mut self, row: SubscriberRow) -> (outcome: StoreOutcome)
        ensures
            (final(self)@, outcome) == old(self)@.insert_subscriber(row@),
    {
        if self.has_subscriber(row.id) || self.has_email(row.email.as_str()) {
            return StoreOutcome::UniqueViolation;
        }
        proof {
            use_type_invariant(&*self);
            self@.lemma_insert_subscriber_keeps_constraints(row@);
            assert(subscriber_rows_view(self.subscriptions@.push(row)) =~= self@.subscriptions.push(
                row@,
            ));
        }
        let Tables { mut subscriptions, subscription_tokens, users } = self.take();
        subscriptions.push(row);
        *self = Tables { subscriptions, subscription_tokens, users };
        StoreOutcome::Done
    }

    /// Inserts a row into `subscription_tokens`, unless its token is taken or
    /// no subscriber has the identity it names.
    pub fn insert_token(&mut self, row: TokenRow) -> (outcome: StoreOutcome)
        ensures
            (final(self)@, outcome) == old(self)@.insert_token(row@),
    {
        if self.has_token(row.subscription_token.as_str()) {
            return StoreOutcome::UniqueViolation;
        }
        if !self.has_subscriber(row.subscriber_id) {
            return StoreOutcome::Failed;
        }
        proof {
            use_type_invariant(&*self);
            self@.lemma_insert_token_keeps_constraints(row@);
            assert(token_rows_view(self.subscription_tokens@.push(row))
                =~= self@.subscription_tokens.push(row@));
        }
        let Tables { subscriptions, mut subscription_tokens, users } = self.take();
        subscription_tokens.push(row);
        *self = Tables { subscriptions, subscription_tokens, users };
        StoreOutcome::Done
    }

    /// Inserts a row into `users`, unless its name is taken.
    pub fn insert_user(&mut self, row: UserRow) -> (outcome: StoreOutcome)
        ensures
            (final(self)@, outcome) == old(self)@.insert_user(row@),
    {
        if self.has_user(row.username.as_str()) {
            return StoreOutcome::UniqueViolation;
        }
        proof {
            use_type_invariant(&*self);
            self@.lemma_insert_user_keeps_constraints(row@);
            assert(user_rows_view(self.users@.push(row)) =~= self@.users.push(row@));
        }
        let Tables { subscriptions, subscription_tokens, mut users } = self.take();
        users.push(row);
        *self = Tables { subscriptions, subscription_tokens, users };
        StoreOutcome::Done
    }

    /// The subscriber that `token` is bound to.
    pub fn owner_of(&self, token: &str) -> (owner: Option<u128>)
        ensures
            owner == self@.owner_of(token@),
    {
        let mut i: usize = 0;
        while i < self.subscription_tokens.len()
            invariant
                i <= self.subscription_tokens.len(),
                forall|j: int|
                    0 <= j < i ==> (#[trigger] self@.subscription_tokens[j]).subscription_token
                        != token@,
            decreases self.subscription_tokens.len() - i,
        {
            if *self.subscription_tokens[i].subscription_token.as_str() == *token {
                proof {
                    use_type_invariant(self);
                    self@.lemma_owner_of(token@, i as int);
                }
                return Some(self.subscription_tokens[i].subscriber_id);
            }
            i = i + 1;
        }
        None
    }

    /// What is stored for the user named `username`.
    pub fn credential_of(&self, username: &str) -> (credential: Option<StoredCredential>)
        ensures
            match credential {
                Some(record) => self@.credential_of(username@) == Some(record@),
                None => self@.credential_of(username@) is None,
            },
    {
        let mut i: usize = 0;
        while i < self.users.len()
            invariant
                i <= self.users.len(),
                forall|j: int| 0 <= j < i ==> (#[trigger] self@.users[j]).username != username@,
            decreases self.users.len() - i,
        {
            if *self.users[i].username.as_str() == *username {
                proof {
                    use_type_invariant(self);
                    self@.lemma_credential_of(username@, i as int);
                }
                return Some(
                    StoredCredential {
                        id: self.users[i].id,
                        password_hash: self.users[i].password_hash.clone(),
                    },
                );
            }
            i = i + 1;
        }
        None
    }

    /// Sets the status of the subscriber with this identity to confirmed.
    pub fn confirm_subscriber(&mut self, id: u128)
        ensures
            final(self)@ == old(self)@.confirm(id),
    {
        proof {
            use_type_invariant(&*self);
            self@.lemma_confirm_keeps_constraints(id);
        }
        let ghost before = self@;
        let Tables { mut subscriptions, subscription_tokens, users } = self.take();
        let mut i: usize = 0;
        while i < subscriptions.len()
            invariant
                i <= subscriptions.len(),
                subscriptions.len() == before.subscriptions.len(),
                forall|j: int|
                    0 <= j < i ==> (#[trigger] subscriptions@[j])@ == before.confirm(
                        id,
                    ).subscriptions[j],
                forall|j: int|
                    i <= j < subscriptions.len() ==> (#[trigger] subscriptions@[j])@
                        == before.subscriptions[j],
            decreases subscriptions.len() - i,
        {
            if subscriptions[i].id == id {
                subscriptions[i].status = Status::Confirmed;
            }
            i = i + 1;
        }
        proof {
            assert(subscriber_rows_view(subscriptions@) =~= before.confirm(id).subscriptions);
        }
        *self = Tables { subscriptions, subscription_tokens, users };
    }

    /// The confirmed subscribers, in the order of the table.
    pub fn confirmed_subscribers(&self) -> (list: Vec<Subscriber>)
        ensures
            subscribers_view(list@) == self@.confirmed_subscribers(),
    {
        let mut list: Vec<Subscriber> = Vec::new();
        let mut i: usize = 0;
        assert(self@.subscriptions.take(0) =~= Seq::empty());
        assert(subscribers_view(list@) =~= confirmed_among(self@.subscriptions.take(0))) by {
            reveal(Seq::filter);
        }
        while i < self.subscriptions.len()
            invariant
                i <= self.subscriptions.len(),
                subscribers_view(list@) == confirmed_among(self@.subscriptions.take(i as int)),
            decreases self.subscriptions.len() - i,
        {
            proof {
                self@.subscriptions.lemma_take_succ_push(i as int);
                lemma_confirmed_among_push(
                    self@.subscriptions.take(i as int),
                    self@.subscriptions[i as int],
                );
            }
            let row = &self.subscriptions[i];
            if row.status == Status::Confirmed {
                let subscriber = Subscriber { name: row.name.clone(), email: row.email.clone() };
                assert(subscribers_view(list@.push(subscriber)) =~= subscribers_view(list@).push(
                    subscriber@,
                ));
                list.push(subscriber);
            }
            i = i + 1;
        }
        assert(self@.subscriptions.take(i as int) =~= self@.subscriptions);
        list
    }

    /// A copy of the tables.
    pub fn duplicate(&self) -> (copy: Tables)
        ensures
            copy@ == self@,
    {
        proof {
            use_type_invariant(self);
        }
        let mut subscriptions: Vec<SubscriberRow> = Vec::new();
        let mut i: usize = 0;
        while i < self.subscriptions.len()
            invariant
                i <= self.subscriptions.len(),
                subscriptions.len() == i,
                forall|j: int| 0 <= j < i ==> (#[trigger] subscriptions@[j])@ == self@.subscriptions[j],
            decreases self.subscriptions.len() - i,
        {
            subscriptions.push(self.subscriptions[i].clone());
            i = i + 1;
        }
        let mut subscription_tokens: Vec<TokenRow> = Vec::new();
        let mut i: usize = 0;
        while i < self.subscription_tokens.len()
            invariant
                i <= self.subscription_tokens.len(),
                subscription_tokens.len() == i,
                forall|j: int|
                    0 <= j < i ==> (#[trigger] subscription_tokens@[j])@
                        == self@.subscription_tokens[j],
            decreases self.subscription_tokens.len() - i,
        {
            subscription_tokens.push(self.subscription_tokens[i].clone());
            i = i + 1;
        }
        let mut users: Vec<UserRow> = Vec::new();
        let mut i: usize = 0;
        while i < self.users.len()
            invariant
                i <= self.users.len(),
                users.len() == i,
                forall|j: int| 0 <= j < i ==> (#[trigger] users@[j])@ == self@.users[j],
            decreases self.users.len() - i,
        {
            users.push(self.users[i].clone());
            i = i + 1;
        }
        proof {
            assert(subscriber_rows_view(subscriptions@) =~= self@.subscriptions);
            assert(token_rows_view(subscription_tokens@) =~= self@.subscription_tokens);
            assert(user_rows_view(users@) =~= self@.users);
        }
        Tables { subscriptions, subscription_tokens, users }
    }
}

/// The store: the tables as they were last committed, and a copy of them that
/// an open transaction works on.
#[verifier::ext_equal]
pub struct StoreView {
    pub committed: TablesView,
    pub pending: Option<TablesView>,
}

impl StoreView {
    /// A store with empty tables and no open transaction.
    pub open spec fn empty() -> StoreView {
        StoreView { committed: TablesView::empty(), pending: None }
    }

    /// Opens a transaction; fails where one is open.
    pub open spec fn begin(self) -> (StoreView, StoreOutcome) {
        if self.pending is Some {
            (self, StoreOutcome::Failed)
        } else {
            (StoreView { pending: Some(self.committed), ..self }, StoreOutcome::Done)
        }
    }

    /// Inserts a subscriber inside the open transaction; fails where none is
    /// open.
    pub open spec fn insert_subscriber(self, row: SubscriberRowView) -> (StoreView, StoreOutcome) {
        match self.pending {
            Some(tables) => {
                let (tables, outcome) = tables.insert_subscriber(row);
                (StoreView { pending: Some(tables), ..self }, outcome)
            },
            None => (self, StoreOutcome::Failed),
        }
    }

    /// Inserts a token inside the open transaction; fails where none is open.
    pub open spec fn insert_token(self, row: TokenRowView) -> (StoreView, StoreOutcome) {
        match self.pending {
            Some(tables) => {
                let (tables, outcome) = tables.insert_token(row);
                (StoreView { pending: Some(tables), ..self }, outcome)
            },
            None => (self, StoreOutcome::Failed),
        }
    }

    /// Makes what the open transaction did the committed state; fails where
    /// none is open.
    pub open spec fn commit(self) -> (StoreView, StoreOutcome) {
        match self.pending {
            Some(tables) => (StoreView { committed: tables, pending: None }, StoreOutcome::Done),
            None => (self, StoreOutcome::Failed),
        }
    }

    /// Drops what the open transaction did, if one is open.
    pub open spec fn rollback(self) -> (StoreView, StoreOutcome) {
        (StoreView { pending: None, ..self }, StoreOutcome::Done)
    }

    /// Confirms a subscriber in the committed tables.
    pub open spec fn confirm(self, id: u128) -> (StoreView, StoreOutcome) {
        (StoreView { committed: self.committed.confirm(id), ..self }, StoreOutcome::Done)
    }

    /// Adds a user to the committed tables.
    pub open spec fn insert_user(self, row: UserRowView) -> (StoreView, StoreOutcome) {
        let (tables, outcome) = self.committed.insert_user(row);
        (StoreView { committed: tables, ..self }, outcome)
    }
}

/// The store in memory.
#[derive(Debug)]
pub struct Store {
    committed: Tables,
    pending: Option<Tables>,
}

impl View for Store {
    type V = StoreView;

    closed spec fn view(&self) -> StoreView {
        StoreView {
            committed: self.committed@,
            pending: match self.pending {
                Some(tables) => Some(tables@),
                None => None,
            },
        }
    }
}

impl Store {
    /// A store with empty tables and no open transaction.
    pub fn new() -> (store: Store)
        ensures
            store@ == StoreView::empty(),
    {
        Store { committed: Tables::new(), pending: None }
    }

    /// The tables as they were last committed.
    pub fn tables(&self) -> (tables: &Tables)
        ensures
            tables@ == self@.committed,
            self@.committed.constraints_hold(),
    {
        proof {
            use_type_invariant(&self.committed);
        }
        &self.committed
    }

    /// Whether a transaction is open.
    pub fn in_transaction(&self) -> (r: bool)
        ensures
            r == self@.pending is Some,
    {
        self.pending.is_some()
    }

    /// Opens a transaction.
    pub fn begin(&mut self) -> (outcome: StoreOutcome)
        ensures
            (final(self)@, outcome) == old(self)@.begin(),
    {
        if self.pending.is_some() {
            return StoreOutcome::Failed;
        }
        self.pending = Some(self.committed.duplicate());
        StoreOutcome::Done
    }

    /// Inserts a subscriber inside the open transaction.
    pub fn insert_subscriber(&mut self, row: SubscriberRow) -> (outcome: StoreOutcome)
        ensures
            (final(self)@, outcome) == old(self)@.insert_subscriber(row@),
    {
        match self.pending.take() {
            Some(mut tables) => {
                let outcome = tables.insert_subscriber(row);
                self.pending = Some(tables);
                outcome
            },
            None => StoreOutcome::Failed,
        }
    }

    /// Inserts a token inside the open transaction.
    pub fn insert_token(&mut self, row: TokenRow) -> (outcome: StoreOutcome)
        ensures
            (final(self)@, outcome) == old(self)@.insert_token(row@),
    {
        match self.pending.take() {
            Some(mut tables) => {
                let outcome = tables.insert_token(row);
                self.pending = Some(tables);
                outcome
            },
            None => StoreOutcome::Failed,
        }
    }

    /// Commits the open transaction.
    pub fn commit(&mut self) -> (outcome: StoreOutcome)
        ensures
            (final(self)@, outcome) == old(self)@.commit(),
    {
        match self.pending.take() {
            Some(tables) => {
                self.committed = tables;
                StoreOutcome::Done
            },
            None => StoreOutcome::Failed,
        }
    }

    /// Rolls the open transaction back, if there is one.
    pub fn rollback(&mut self) -> (outcome: StoreOutcome)
        ensures
            (final(self)@, outcome) == old(self)@.rollback(),
    {
        self.pending = None;
        StoreOutcome::Done
    }

    /// The subscriber that `token` is bound to in the committed tables.
    pub fn owner_of(&self, token: &str) -> (owner: Option<u128>)
        ensures
            owner == self@.committed.owner_of(token@),
    {
        self.committed.owner_of(token)
    }

    /// Confirms a subscriber in the committed tables.
    pub fn confirm_subscriber(&mut self, id: u128) -> (outcome: StoreOutcome)
        ensures
            (final(self)@, outcome) == old(self)@.confirm(id),
    {
        self.committed.confirm_subscriber(id);
        StoreOutcome::Done
    }

    /// The confirmed subscribers of the committed tables.
    pub fn confirmed_subscribers(&self) -> (list: Vec<Subscriber>)
        ensures
            subscribers_view(list@) == self@.committed.confirmed_subscribers(),
    {
        self.committed.confirmed_subscribers()
    }

    /// What the committed tables hold for the user named `username`.
    pub fn credential_of(&self, username: &str) -> (credential: Option<StoredCredential>)
        ensures
            match credential {
                Some(record) => self@.committed.credential_of(username@) == Some(record@),
                None => self@.committed.credential_of(username@) is None,
            },
    {
        self.committed.credential_of(username)
    }

    /// Adds a user to the committed tables.
    pub fn insert_user(&mut self, row: UserRow) -> (outcome: StoreOutcome)
        ensures
            (final(self)@, outcome) == old(self)@.insert_user(row@),
    {
        self.committed.insert_user(row)
    }
}

} // verus!
