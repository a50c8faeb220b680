//! Subscribing: a new subscriber and a confirmation token are stored in one
//! transaction, and only then is the confirmation link mailed.

use crate::domain::subscriber::SubscriberView;
use crate::domain::subscriber_email::{email_grammar_accepts, invalid_email_message};
use crate::domain::subscriber_name::{invalid_name_message, valid_name};
use crate::domain::{Email, Subscriber, SubscriberName};
use crate::email_client::{outcome_of, EmailClient, OutgoingEmail, OutgoingEmailView};
use crate::http::Response;
use crate::store::{
    SubscriberRow, SubscriberRowView, Status, StoreOutcome, TokenRow, TokenRowView,
};
use crate::text::push_char;
use chrono::Utc;
use rand::{distributions::Alphanumeric, thread_rng, Rng};
use uuid::Uuid;
use vstd::prelude::*;
use vstd::string::*;

verus! {

/// The number of characters of a subscription token.
pub const SUBSCRIPTION_TOKEN_LENGTH: usize = 25;

/// The form that asks for a subscription.
#[derive(Debug)]
pub struct SubscribeFormData {
    pub name: String,
    pub email: String,
}

/// The form as two texts.
pub struct SubscribeFormDataView {
    pub name: Seq<char>,
    pub email: Seq<char>,
}

impl View for SubscribeFormData {
    type V = SubscribeFormDataView;

    open spec fn view(&self) -> SubscribeFormDataView {
        SubscribeFormDataView { name: self.name@, email: self.email@ }
    }
}

impl SubscribeFormDataView {
    /// Whether the form holds a valid name and a valid address.
    pub open spec fn is_valid(self) -> bool {
        valid_name(self.name) && email_grammar_accepts(self.email)
    }

    /// What is reported of a form that is not valid: the name is judged first.
    pub open spec fn rejection(self) -> Seq<char> {
        if !valid_name(self.name) {
            invalid_name_message(self.name)
        } else {
            invalid_email_message(self.email)
        }
    }

    /// The subscriber that a valid form describes.
    pub open spec fn subscriber(self) -> SubscriberView {
        SubscriberView { name: self.name, email: self.email }
    }
}

impl TryFrom<SubscribeFormData> for Subscriber {
    type Error = String;

    fn try_from(value: SubscribeFormData) -> (r: Result<Self, String>)
        ensures
            match r {
                Ok(subscriber) => value@.is_valid() && subscriber@ == value@.subscriber(),
                Err(message) => !value@.is_valid() && message@ == value@.rejection(),
            },
    {
        let name = match SubscriberName::parse(value.name) {
            Ok(name) => name,
            Err(message) => return Err(message),
        };
        let email = match Email::parse(value.email) {
            Ok(email) => email,
            Err(message) => return Err(message),
        };
        Ok(Self { name, email })
    }
}

impl vstd::std_specs::convert::TryFromSpecImpl<SubscribeFormData> for Subscriber {
    open spec fn obeys_try_from_spec() -> bool {
        false
    }

    open spec fn try_from_spec(v: SubscribeFormData) -> Result<Self, String> {
        arbitrary()
    }
}

/// Why a subscription did not come about, or came about without its
/// confirmation mail.
#[derive(Clone, Copy, Debug, PartialEq, Eq, Structural)]
pub enum SubscribeError {
    /// The name or the address is not valid.
    ValidationFailed,
    /// A subscriber with this address exists.
    DuplicateEmail,
    /// The store failed; nothing was stored.
    PersistenceFailure,
    /// The subscriber and the token are stored, but the confirmation mail
    /// did not go out.
    NotificationFailure,
}

/// The answer to a request to subscribe.
pub open spec fn subscribe_response_of(outcome: Result<(), SubscribeError>) -> Response {
    match outcome {
        Ok(()) => Response::Success,
        Err(SubscribeError::ValidationFailed) => Response::BadRequest,
        Err(SubscribeError::DuplicateEmail) => Response::Conflict,
        Err(SubscribeError::PersistenceFailure) => Response::InternalServerError,
        Err(SubscribeError::NotificationFailure) => Response::InternalServerError,
    }
}

/// The answer to a request to subscribe.
pub fn subscribe_response(outcome: Result<(), SubscribeError>) -> (response: Response)
    ensures
        response == subscribe_response_of(outcome),
{
    match outcome {
        Ok(()) => Response::Success,
        Err(SubscribeError::ValidationFailed) => Response::BadRequest,
        Err(SubscribeError::DuplicateEmail) => Response::Conflict,
        Err(SubscribeError::PersistenceFailure) => Response::InternalServerError,
        Err(SubscribeError::NotificationFailure) => Response::InternalServerError,
    }
}

/// Whether `b` is an ASCII letter or digit.
pub open spec fn is_ascii_alphanumeric(b: u8) -> bool {
    0x30 <= b <= 0x39 || 0x41 <= b <= 0x5A || 0x61 <= b <= 0x7A
}

/// Whether `c` may stand in a subscription token: an ASCII letter or digit.
pub open spec fn is_token_char(c: char) -> bool {
    ('0' <= c <= '9') || ('A' <= c <= 'Z') || ('a' <= c <= 'z')
}

/// Whether `token` has the form of a subscription token: 25 ASCII letters
/// and digits.
pub open spec fn is_subscription_token(token: Seq<char>) -> bool {
    &&& token.len() == SUBSCRIPTION_TOKEN_LENGTH
    &&& forall|i: int| 0 <= i < token.len() ==> is_token_char(#[trigger] token[i])
}

/// Whether `id` has the form of a random UUID: version 4, variant 1.
pub open spec fn is_random_uuid(id: u128) -> bool {
    (id >> 76) & 0xf == 4 && (id >> 62) & 0x3 == 2
}

/// `Rng::sample` of `rand::distributions::Alphanumeric` on the thread's
/// generator: some ASCII letter or digit.
#[verifier::external_body]
fn random_alphanumeric() -> (b: u8)
    ensures
        is_ascii_alphanumeric(b),
{
    thread_rng().sample(Alphanumeric)
}

/// `Uuid::new_v4`: a random UUID, as the number that its 16 bytes spell.
#[verifier::external_body]
fn random_uuid() -> (id: u128)
    ensures
        is_random_uuid(id),
{
    Uuid::new_v4().as_u128()
}

/// `Utc::now`: the time on the system's clock, in microseconds since the
/// Unix epoch.
#[verifier::external_body]
fn now_in_microseconds() -> i64 {
    Utc::now().timestamp_micros()
}

/// Draws a token: 25 random ASCII letters and digits.
pub fn generate_subscription_token() -> (token: String)
    ensures
        is_subscription_token(token@),
{
    let mut token = String::new();
    let mut drawn: usize = 0;
    while drawn < SUBSCRIPTION_TOKEN_LENGTH
        invariant
            drawn <= SUBSCRIPTION_TOKEN_LENGTH,
            token@.len() == drawn,
            forall|i: int| 0 <= i < token@.len() ==> is_token_char(#[trigger] token@[i]),
        decreases SUBSCRIPTION_TOKEN_LENGTH - drawn,
    {
        let b = random_alphanumeric();
        push_char(&mut token, b as char);
        drawn = drawn + 1;
    }
    token
}

/// The link that confirms the subscription bound to `token`.
pub open spec fn confirmation_link_of(base_url: Seq<char>, token: Seq<char>) -> Seq<char> {
    base_url + "/subscriptions/confirm?subscription_token="@ + token
}

/// The confirmation mail for `recipient`.
pub open spec fn confirmation_email_of(
    recipient: Seq<char>,
    base_url: Seq<char>,
    token: Seq<char>,
) -> OutgoingEmailView {
    OutgoingEmailView {
        recipient,
        subject: "Newsletter subscription"@,
        body: "Welcome to our newsletter <br> Click <a href=\""@ + confirmation_link_of(
            base_url,
            token,
        ) + "\"here</a> to confirm the subscription"@,
    }
}

/// The link that confirms the subscription bound to `token`.
pub fn confirmation_link(base_url: &str, token: &str) -> (link: String)
    ensures
        link@ == confirmation_link_of(base_url@, token@),
{
    base_url.to_owned().concat("/subscriptions/confirm?subscription_token=").concat(token)
}

/// The confirmation mail for `recipient`.
pub fn confirmation_email(recipient: &Email, base_url: &str, token: &str) -> (email: OutgoingEmail)
    ensures
        email@ == confirmation_email_of(recipient@, base_url@, token@),
{
    let confirmation_link = confirmation_link(base_url, token);
    let body = String::from_str("Welcome to our newsletter <br> Click <a href=\"").concat(
        confirmation_link.as_str(),
    ).concat("\"here</a> to confirm the subscription");
    OutgoingEmail {
        recipient: recipient.clone(),
        subject: String::from_str("Newsletter subscription"),
        body,
    }
}

/// How far a subscription has come. Each phase but the last waits for the
/// answer to one action.
#[derive(Clone, Copy, Debug, PartialEq, Eq, Structural)]
pub enum SubscribePhase {
    /// A transaction is being opened.
    Beginning,
    /// The subscriber is being inserted.
    InsertingSubscriber,
    /// The token is being inserted.
    InsertingToken,
    /// The transaction is being committed.
    Committing,
    /// The transaction is being rolled back, because of this error.
    Aborting(SubscribeError),
    /// The confirmation mail is being sent.
    Notifying,
    /// The subscription came about and the mail went out.
    Succeeded,
    /// The subscription ended with this error.
    Failed(SubscribeError),
}

/// An answer to an action.
#[derive(Clone, Copy, Debug, PartialEq, Eq, Structural)]
pub enum SubscribeEvent {
    /// The store's answer to a statement.
    Store(StoreOutcome),
    /// The status with which the e-mail service answered, `None` where no
    /// answer came.
    Mail(Option<u16>),
}

/// What a subscription asks for next.
#[derive(Debug)]
pub enum SubscribeAction {
    BeginTransaction,
    InsertSubscriber(SubscriberRow),
    InsertToken(TokenRow),
    Commit,
    Rollback,
    SendEmail(OutgoingEmail),
    Respond(Result<(), SubscribeError>),
}

/// An action with its texts as sequences.
pub enum SubscribeActionView {
    BeginTransaction,
    InsertSubscriber(SubscriberRowView),
    InsertToken(TokenRowView),
    Commit,
    Rollback,
    SendEmail(OutgoingEmailView),
    Respond(Result<(), SubscribeError>),
}

impl View for SubscribeAction {
    type V = SubscribeActionView;

    open spec fn view(&self) -> SubscribeActionView {
        match self {
            SubscribeAction::BeginTransaction => SubscribeActionView::BeginTransaction,
            SubscribeAction::InsertSubscriber(row) => SubscribeActionView::InsertSubscriber(row@),
            SubscribeAction::InsertToken(row) => SubscribeActionView::InsertToken(row@),
            SubscribeAction::Commit => SubscribeActionView::Commit,
            SubscribeAction::Rollback => SubscribeActionView::Rollback,
            SubscribeAction::SendEmail(email) => SubscribeActionView::SendEmail(email@),
            SubscribeAction::Respond(outcome) => SubscribeActionView::Respond(*outcome),
        }
    }
}

impl SubscribePhase {
    /// The phase that follows when `event` answers the action of this one.
    /// An answer other than the awaited success ends the subscription: with
    /// a rollback where the transaction is open, at once where it is not.
    pub open spec fn after(self, event: SubscribeEvent) -> SubscribePhase {
        match self {
            SubscribePhase::Beginning => match event {
                SubscribeEvent::Store(StoreOutcome::Done) => SubscribePhase::InsertingSubscriber,
                _ => SubscribePhase::Failed(SubscribeError::PersistenceFailure),
            },
            SubscribePhase::InsertingSubscriber => match event {
                SubscribeEvent::Store(StoreOutcome::Done) => SubscribePhase::InsertingToken,
                SubscribeEvent::Store(StoreOutcome::UniqueViolation) => SubscribePhase::Aborting(
                    SubscribeError::DuplicateEmail,
                ),
                _ => SubscribePhase::Aborting(SubscribeError::PersistenceFailure),
            },
            SubscribePhase::InsertingToken => match event {
                SubscribeEvent::Store(StoreOutcome::Done) => SubscribePhase::Committing,
                _ => SubscribePhase::Aborting(SubscribeError::PersistenceFailure),
            },
            SubscribePhase::Committing => match event {
                SubscribeEvent::Store(StoreOutcome::Done) => SubscribePhase::Notifying,
                _ => SubscribePhase::Failed(SubscribeError::PersistenceFailure),
            },
            SubscribePhase::Aborting(error) => SubscribePhase::Failed(error),
            SubscribePhase::Notifying => match event {
                SubscribeEvent::Mail(reply) => if outcome_of(reply) is Ok {
                    SubscribePhase::Succeeded
                } else {
                    SubscribePhase::Failed(SubscribeError::NotificationFailure)
                },
                _ => SubscribePhase::Failed(SubscribeError::NotificationFailure),
            },
            SubscribePhase::Succeeded => SubscribePhase::Succeeded,
            SubscribePhase::Failed(error) => SubscribePhase::Failed(error),
        }
    }

    /// The number of actions that are at most still to be answered.
    pub open spec fn steps_left(self) -> nat {
        match self {
            SubscribePhase::Beginning => 5,
            SubscribePhase::InsertingSubscriber => 4,
            SubscribePhase::InsertingToken => 3,
            SubscribePhase::Committing => 2,
            SubscribePhase::Aborting(_) => 1,
            SubscribePhase::Notifying => 1,
            SubscribePhase::Succeeded => 0,
            SubscribePhase::Failed(_) => 0,
        }
    }

    /// The outcome, once nothing is left to do.
    pub open spec fn outcome(self) -> Option<Result<(), SubscribeError>> {
        match self {
            SubscribePhase::Succeeded => Some(Ok(())),
            SubscribePhase::Failed(error) => Some(Err(error)),
            _ => None,
        }
    }

    /// The outcome, once nothing is left to do.
    pub fn result(self) -> (outcome: Option<Result<(), SubscribeError>>)
        ensures
            outcome == self.outcome(),
    {
        match self {
            SubscribePhase::Succeeded => Some(Ok(())),
            SubscribePhase::Failed(error) => Some(Err(error)),
            _ => None,
        }
    }

    /// The phase that follows when `event` answers the action of this one.
    pub fn next(self, event: SubscribeEvent) -> (phase: SubscribePhase)
        ensures
            phase == self.after(event),
    {
        match self {
            SubscribePhase::Beginning => match event {
                SubscribeEvent::Store(StoreOutcome::Done) => SubscribePhase::InsertingSubscriber,
                _ => SubscribePhase::Failed(SubscribeError::PersistenceFailure),
            },
            SubscribePhase::InsertingSubscriber => match event {
                SubscribeEvent::Store(StoreOutcome::Done) => SubscribePhase::InsertingToken,
                SubscribeEvent::Store(StoreOutcome::UniqueViolation) => SubscribePhase::Aborting(
                    SubscribeError::DuplicateEmail,
                ),
                _ => SubscribePhase::Aborting(SubscribeError::PersistenceFailure),
            },
            SubscribePhase::InsertingToken => match event {
                SubscribeEvent::Store(StoreOutcome::Done) => SubscribePhase::Committing,
                _ => SubscribePhase::Aborting(SubscribeError::PersistenceFailure),
            },
            SubscribePhase::Committing => match event {
                SubscribeEvent::Store(StoreOutcome::Done) => SubscribePhase::Notifying,
                _ => SubscribePhase::Failed(SubscribeError::PersistenceFailure),
            },
            SubscribePhase::Aborting(error) => SubscribePhase::Failed(error),
            SubscribePhase::Notifying => match event {
                SubscribeEvent::Mail(reply) => if EmailClient::outcome(reply).is_ok() {
                    SubscribePhase::Succeeded
                } else {
                    SubscribePhase::Failed(SubscribeError::NotificationFailure)
                },
                _ => SubscribePhase::Failed(SubscribeError::NotificationFailure),
            },
            SubscribePhase::Succeeded => SubscribePhase::Succeeded,
            SubscribePhase::Failed(error) => SubscribePhase::Failed(error),
        }
    }
}

/// A subscription under way: what is to be stored and mailed, and how far it
/// has come.
#[derive(Debug)]
pub struct Subscription {
    id: u128,
    subscriber: Subscriber,
    subscribed_at: i64,
    token: String,
    base_url: String,
    phase: SubscribePhase,
}

/// A subscription under way, with its texts as sequences.
pub struct SubscriptionView {
    pub id: u128,
    pub subscriber: SubscriberView,
    pub subscribed_at: i64,
    pub token: Seq<char>,
    pub base_url: Seq<char>,
    pub phase: SubscribePhase,
}

impl View for Subscription {
    type V = SubscriptionView;

    closed spec fn view(&self) -> SubscriptionView {
        SubscriptionView {
            id: self.id,
            subscriber: self.subscriber@,
            subscribed_at: self.subscribed_at,
            token: self.token@,
            base_url: self.base_url@,
            phase: self.phase,
        }
    }
}

impl SubscriptionView {
    /// The subscription that a valid `form` starts, with the identity, the
    /// time and the token that were drawn for it.
    pub open spec fn started(
        form: SubscribeFormDataView,
        base_url: Seq<char>,
        id: u128,
        subscribed_at: i64,
        token: Seq<char>,
    ) -> SubscriptionView {
        SubscriptionView {
            id,
            subscriber: form.subscriber(),
            subscribed_at,
            token,
            base_url,
            phase: SubscribePhase::Beginning,
        }
    }

    /// The row that is inserted into `subscriptions`: the subscriber is
    /// pending.
    pub open spec fn subscriber_row(self) -> SubscriberRowView {
        SubscriberRowView {
            id: self.id,
            email: self.subscriber.email,
            name: self.subscriber.name,
            subscribed_at: self.subscribed_at,
            status: Status::PendingConfirmation,
        }
    }

    /// The row that is inserted into `subscription_tokens`.
    pub open spec fn token_row(self) -> TokenRowView {
        TokenRowView { subscription_token: self.token, subscriber_id: self.id }
    }

    /// The confirmation mail.
    pub open spec fn email(self) -> OutgoingEmailView {
        confirmation_email_of(self.subscriber.email, self.base_url, self.token)
    }

    /// What the subscription asks for in its phase.
    pub open spec fn action(self) -> SubscribeActionView {
        match self.phase {
            SubscribePhase::Beginning => SubscribeActionView::BeginTransaction,
            SubscribePhase::InsertingSubscriber => SubscribeActionView::InsertSubscriber(
                self.subscriber_row(),
            ),
            SubscribePhase::InsertingToken => SubscribeActionView::InsertToken(self.token_row()),
            SubscribePhase::Committing => SubscribeActionView::Commit,
            SubscribePhase::Aborting(_) => SubscribeActionView::Rollback,
            SubscribePhase::Notifying => SubscribeActionView::SendEmail(self.email()),
            SubscribePhase::Succeeded => SubscribeActionView::Respond(Ok(())),
            SubscribePhase::Failed(error) => SubscribeActionView::Respond(Err(error)),
        }
    }

    /// The subscription once `event` has answered its action.
    pub open spec fn after(self, event: SubscribeEvent) -> SubscriptionView {
        SubscriptionView { phase: self.phase.after(event), ..self }
    }
}

impl Subscription {
    /// Starts a subscription for `form` with the given identity, time and
    /// token, if the form is valid.
    pub fn start_with(
        form: SubscribeFormData,
        base_url: &str,
        id: u128,
        subscribed_at: i64,
        token: String,
    ) -> (r: Result<Subscription, SubscribeError>)
        ensures
            match r {
                Ok(subscription) => form@.is_valid() && subscription@ == SubscriptionView::started(
                    form@,
                    base_url@,
                    id,
                    subscribed_at,
                    token@,
                ),
                Err(error) => !form@.is_valid() && error == SubscribeError::ValidationFailed,
            },
    {
        let subscriber = match Subscriber::try_from(form) {
            Ok(v) => v,
            Err(_) => return Err(SubscribeError::ValidationFailed),
        };
        Ok(
            Subscription {
                id,
                subscriber,
                subscribed_at,
                token,
                base_url: base_url.to_owned(),
                phase: SubscribePhase::Beginning,
            },
        )
    }

    /// Starts a subscription for `form`, if the form is valid: draws a random
    /// identity and a random token, and reads the clock.
    pub fn start(form: SubscribeFormData, base_url: &str) -> (r: Result<
        Subscription,
        SubscribeError,
    >)
        ensures
            match r {
                Ok(subscription) => {
                    &&& form@.is_valid()
                    &&& subscription@ == SubscriptionView::started(
                        form@,
                        base_url@,
                        subscription@.id,
                        subscription@.subscribed_at,
                        subscription@.token,
                    )
                    &&& is_random_uuid(subscription@.id)
                    &&& is_subscription_token(subscription@.token)
                },
                Err(error) => !form@.is_valid() && error == SubscribeError::ValidationFailed,
            },
    {
        let subscriber = match Subscriber::try_from(form) {
            Ok(v) => v,
            Err(_) => return Err(SubscribeError::ValidationFailed),
        };
        Ok(
            Subscription {
                id: random_uuid(),
                subscriber,
                subscribed_at: now_in_microseconds(),
                token: generate_subscription_token(),
                base_url: base_url.to_owned(),
                phase: SubscribePhase::Beginning,
            },
        )
    }

    /// The phase.
    pub fn phase(&self) -> (phase: SubscribePhase)
        ensures
            phase == self@.phase,
    {
        self.phase
    }

    /// The token that was drawn for this subscription.
    pub fn token(&self) -> (token: &str)
        ensures
            token@ == self@.token,
    {
        self.token.as_str()
    }

    /// The identity that was drawn for this subscription.
    pub fn id(&self) -> (id: u128)
        ensures
            id == self@.id,
    {
        self.id
    }

    /// What is to be asked next.
    pub fn action(&self) -> (action: SubscribeAction)
        ensures
            action@ == self@.action(),
    {
        match self.phase {
            SubscribePhase::Beginning => SubscribeAction::BeginTransaction,
            SubscribePhase::InsertingSubscriber => SubscribeAction::InsertSubscriber(
                SubscriberRow {
                    id: self.id,
                    email: self.subscriber.email.clone(),
                    name: self.subscriber.name.clone(),
                    subscribed_at: self.subscribed_at,
                    status: Status::PendingConfirmation,
                },
            ),
            SubscribePhase::InsertingToken => SubscribeAction::InsertToken(
                TokenRow { subscription_token: self.token.clone(), subscriber_id: self.id },
            ),
            SubscribePhase::Committing => SubscribeAction::Commit,
            SubscribePhase::Aborting(_) => SubscribeAction::Rollback,
            SubscribePhase::Notifying => SubscribeAction::SendEmail(
                confirmation_email(
                    &self.subscriber.email,
                    self.base_url.as_str(),
                    self.token.as_str(),
                ),
            ),
            SubscribePhase::Succeeded => SubscribeAction::Respond(Ok(())),
            SubscribePhase::Failed(error) => SubscribeAction::Respond(Err(error)),
        }
    }

    /// Takes the answer to the last action.
    pub fn advance(&mut self, event: SubscribeEvent)
        ensures
            final(self)@ == old(self)@.after(event),
    {
        self.phase = self.phase.next(event);
    }
}

/// Every answer brings the subscription nearer to its end.
pub proof fn lemma_subscribe_progress(phase: SubscribePhase, event: SubscribeEvent)
    requires
        phase.outcome() is None,
    ensures
        phase.after(event).steps_left() < phase.steps_left(),
{
}

/// Nothing is committed but after both rows were inserted, nothing is mailed
/// but after the commit took effect, and a failure inside the transaction is
/// followed by a rollback.
pub proof fn lemma_subscribe_order(phase: SubscribePhase, event: SubscribeEvent)
    ensures
        phase.after(event) == SubscribePhase::InsertingToken ==> phase
            == SubscribePhase::InsertingSubscriber && event == SubscribeEvent::Store(
            StoreOutcome::Done,
        ),
        phase.after(event) == SubscribePhase::Committing ==> phase == SubscribePhase::InsertingToken
            && event == SubscribeEvent::Store(StoreOutcome::Done),
        phase.after(event) == SubscribePhase::Notifying ==> phase == SubscribePhase::Committing
            && event == SubscribeEvent::Store(StoreOutcome::Done),
        (phase == SubscribePhase::InsertingSubscriber || phase == SubscribePhase::InsertingToken)
            && event != SubscribeEvent::Store(StoreOutcome::Done) ==> phase.after(
            event,
        ) is Aborting,
{
}

} // verus!
