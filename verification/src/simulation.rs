//! The application in memory: the store, an e-mail service that answers as
//! it is told to, and the three services run against them. What the
//! services do to a store and to the e-mail service is stated here.

use crate::auth::{credentials_check, header_view, validate_credentials, AuthError};
use crate::email_client::{
    request_for, EmailClient, EmailClientView, EmailRequest, EmailRequestView,
};
use crate::http::Response;
use crate::routes::delivery::{
    DeliverError, Delivery, DeliveryAction, DeliveryActionView, DeliveryData, DeliveryDataView,
    DeliveryEvent, DeliveryEventView, DeliveryView,
};
use crate::routes::login::{credentials_of, login_response, FormData};
use crate::routes::subscriptions::{
    is_random_uuid, is_subscription_token, SubscribeAction, SubscribeActionView, SubscribeError,
    SubscribeEvent, SubscribeFormData, SubscribeFormDataView, Subscription, SubscriptionView,
};
use crate::routes::subscriptions_confirm::{
    ConfirmAction, ConfirmActionView, ConfirmError, ConfirmEvent, Confirmation, ConfirmationView,
    Parameters,
};
use crate::store::{Store, StoreOutcome, StoreView};
use vstd::prelude::*;
use vstd::string::*;

verus! {

/// The status with which the e-mail service answers unless told otherwise.
pub const ACCEPTED: u16 = 200;

/// An e-mail service that keeps what it is asked to send and answers each
/// call with the status that was laid down for it.
#[verifier::ext_equal]
pub struct MailServerView {
    /// The answers to the first calls, in order: a status, or `None` for no
    /// answer. Every later call is answered with 200.
    pub replies: Seq<Option<u16>>,
    /// The calls so far, in order.
    pub received: Seq<EmailRequestView>,
}

/// The answer to the call that comes after `calls` others, where `replies`
/// are the answers that were laid down.
pub open spec fn reply_in(replies: Seq<Option<u16>>, calls: int) -> Option<u16> {
    if 0 <= calls < replies.len() {
        replies[calls]
    } else {
        Some(ACCEPTED)
    }
}

impl MailServerView {
    /// The service's answer to the next call.
    pub open spec fn next_reply(self) -> Option<u16> {
        reply_in(self.replies, self.received.len() as int)
    }

    /// The service after one more call.
    pub open spec fn with(self, request: EmailRequestView) -> MailServerView {
        MailServerView { received: self.received.push(request), ..self }
    }
}

/// The requests of a list, each as its view.
pub open spec fn requests_view(requests: Seq<EmailRequest>) -> Seq<EmailRequestView> {
    requests.map_values(|request: EmailRequest| request@)
}

/// The e-mail service in memory.
pub struct MailServer {
    replies: Vec<Option<u16>>,
    received: Vec<EmailRequest>,
}

impl View for MailServer {
    type V = MailServerView;

    closed spec fn view(&self) -> MailServerView {
        MailServerView { replies: self.replies@, received: requests_view(self.received@) }
    }
}

impl MailServer {
    /// A service that answers every call with 200.
    pub fn new() -> (server: MailServer)
        ensures
            server@ == (MailServerView { replies: Seq::empty(), received: Seq::empty() }),
    {
        let server = MailServer { replies: Vec::new(), received: Vec::new() };
        assert(server@.received =~= Seq::empty());
        server
    }

    /// A service that answers its first calls with `replies`, in order, and
    /// every later call with 200.
    pub fn answering(replies: Vec<Option<u16>>) -> (server: MailServer)
        ensures
            server@ == (MailServerView { replies: replies@, received: Seq::empty() }),
    {
        let server = MailServer { replies, received: Vec::new() };
        assert(server@.received =~= Seq::empty());
        server
    }

    /// Takes one call and answers it.
    pub fn receive(&mut self, request: EmailRequest) -> (reply: Option<u16>)
        ensures
            final(self)@ == old(self)@.with(request@),
            reply == old(self)@.next_reply(),
    {
        let calls = self.received.len();
        let reply = if calls < self.replies.len() {
            self.replies[calls]
        } else {
            Some(ACCEPTED)
        };
        assert(requests_view(self.received@.push(request)) =~= requests_view(self.received@).push(
            request@,
        ));
        self.received.push(request);
        reply
    }

    /// The calls so far, in order.
    pub fn received(&self) -> (requests: &Vec<EmailRequest>)
        ensures
            requests_view(requests@) == self@.received,
    {
        &self.received
    }
}

/// The application in memory, as the states of its parts.
#[verifier::ext_equal]
pub struct SimulationView {
    pub store: StoreView,
    pub client: EmailClientView,
    pub mail: MailServerView,
    pub base_url: Seq<char>,
}

impl SimulationView {
    /// The state once the e-mail service has taken `request`, and its answer.
    pub open spec fn send(self, request: EmailRequestView) -> (SimulationView, Option<u16>) {
        (SimulationView { mail: self.mail.with(request), ..self }, self.mail.next_reply())
    }

    /// The state once the store and the e-mail service have done what a
    /// subscription asked for, and their answer.
    pub open spec fn answer_subscription(self, action: SubscribeActionView) -> (
        SimulationView,
        SubscribeEvent,
    ) {
        match action {
            SubscribeActionView::BeginTransaction => {
                let (store, outcome) = self.store.begin();
                (SimulationView { store, ..self }, SubscribeEvent::Store(outcome))
            },
            SubscribeActionView::InsertSubscriber(row) => {
                let (store, outcome) = self.store.insert_subscriber(row);
                (SimulationView { store, ..self }, SubscribeEvent::Store(outcome))
            },
            SubscribeActionView::InsertToken(row) => {
                let (store, outcome) = self.store.insert_token(row);
                (SimulationView { store, ..self }, SubscribeEvent::Store(outcome))
            },
            SubscribeActionView::Commit => {
                let (store, outcome) = self.store.commit();
                (SimulationView { store, ..self }, SubscribeEvent::Store(outcome))
            },
            SubscribeActionView::Rollback => {
                let (store, outcome) = self.store.rollback();
                (SimulationView { store, ..self }, SubscribeEvent::Store(outcome))
            },
            SubscribeActionView::SendEmail(email) => {
                let (after, reply) = self.send(
                    request_for(self.client, email.recipient, email.subject, email.body),
                );
                (after, SubscribeEvent::Mail(reply))
            },
            SubscribeActionView::Respond(_) => (self, SubscribeEvent::Store(StoreOutcome::Failed)),
        }
    }

    /// The state and the outcome once `subscription` has run to its end.
    pub open spec fn run_subscription(self, subscription: SubscriptionView) -> (
        SimulationView,
        Result<(), SubscribeError>,
    )
        decreases subscription.phase.steps_left(),
    {
        match subscription.phase.outcome() {
            Some(outcome) => (self, outcome),
            None => {
                let (after, event) = self.answer_subscription(subscription.action());
                after.run_subscription(subscription.after(event))
            },
        }
    }

    /// Subscribing with `form`, where `id`, `subscribed_at` and `token` are
    /// what is drawn for the new subscriber.
    pub open spec fn subscribe(
        self,
        form: SubscribeFormDataView,
        id: u128,
        subscribed_at: i64,
        token: Seq<char>,
    ) -> (SimulationView, Result<(), SubscribeError>) {
        if form.is_valid() {
            self.run_subscription(
                SubscriptionView::started(form, self.base_url, id, subscribed_at, token),
            )
        } else {
            (self, Err(SubscribeError::ValidationFailed))
        }
    }

    /// The state once the store has done what a confirmation asked for, and
    /// its answer.
    pub open spec fn answer_confirmation(self, action: ConfirmActionView) -> (
        SimulationView,
        ConfirmEvent,
    ) {
        match action {
            ConfirmActionView::FindOwner(token) => (
                self,
                ConfirmEvent::Owner(self.store.committed.owner_of(token)),
            ),
            ConfirmActionView::ConfirmSubscriber(id) => {
                let (store, outcome) = self.store.confirm(id);
                (SimulationView { store, ..self }, ConfirmEvent::Store(outcome))
            },
            ConfirmActionView::Respond(_) => (self, ConfirmEvent::Store(StoreOutcome::Failed)),
        }
    }

    /// The state and the outcome once `confirmation` has run to its end.
    pub open spec fn run_confirmation(self, confirmation: ConfirmationView) -> (
        SimulationView,
        Result<(), ConfirmError>,
    )
        decreases confirmation.phase.steps_left(),
    {
        match confirmation.phase.outcome() {
            Some(outcome) => (self, outcome),
            None => {
                let (after, event) = self.answer_confirmation(confirmation.action());
                after.run_confirmation(confirmation.after(event))
            },
        }
    }

    /// Confirming the subscription that `token` is bound to.
    pub open spec fn confirm(self, token: Seq<char>) -> (SimulationView, Result<(), ConfirmError>) {
        self.run_confirmation(ConfirmationView::started(token))
    }

    /// The state once the store and the e-mail service have done what a
    /// delivery asked for, and their answer.
    pub open spec fn answer_delivery(self, action: DeliveryActionView) -> (
        SimulationView,
        DeliveryEventView,
    ) {
        match action {
            DeliveryActionView::FindUser(username) => (
                self,
                DeliveryEventView::User(self.store.committed.credential_of(username)),
            ),
            DeliveryActionView::LoadSubscribers => (
                self,
                DeliveryEventView::Subscribers(Some(self.store.committed.confirmed_subscribers())),
            ),
            DeliveryActionView::SendEmail(email) => {
                let (after, reply) = self.send(
                    request_for(self.client, email.recipient, email.subject, email.body),
                );
                (after, DeliveryEventView::Mail(reply))
            },
            DeliveryActionView::Respond(_) => (self, DeliveryEventView::Mail(None)),
        }
    }

    /// The state and the outcome once `delivery` has run to its end.
    pub open spec fn run_delivery(self, delivery: DeliveryView) -> (
        SimulationView,
        Result<(), DeliverError>,
    )
        decreases delivery.phase.rank(), delivery.sends_left(),
    {
        match delivery.phase.outcome() {
            Some(outcome) => (self, outcome),
            None => {
                let (after, event) = self.answer_delivery(delivery.action());
                after.run_delivery(delivery.after(event))
            },
        }
    }

    /// Delivering `data` for the caller who sent this `Authorization` header.
    pub open spec fn deliver(self, data: DeliveryDataView, authorization: Option<Seq<u8>>) -> (
        SimulationView,
        Result<(), DeliverError>,
    ) {
        self.run_delivery(DeliveryView::started(data, authorization))
    }
}

/// The application in memory.
pub struct Simulation {
    store: Store,
    email_client: EmailClient,
    email_server: MailServer,
    base_url: String,
}

impl View for Simulation {
    type V = SimulationView;

    closed spec fn view(&self) -> SimulationView {
        SimulationView {
            store: self.store@,
            client: self.email_client@,
            mail: self.email_server@,
            base_url: self.base_url@,
        }
    }
}

impl Simulation {
    /// The application over this store and this e-mail service.
    pub fn new(
        store: Store,
        email_client: EmailClient,
        email_server: MailServer,
        base_url: String,
    ) -> (simulation: Simulation)
        ensures
            simulation@ == (SimulationView {
                store: store@,
                client: email_client@,
                mail: email_server@,
                base_url: base_url@,
            }),
    {
        Simulation { store, email_client, email_server, base_url }
    }

    /// The store.
    pub fn store(&self) -> (store: &Store)
        ensures
            store@ == self@.store,
    {
        &self.store
    }

    /// The store, to put rows into it.
    pub fn store_mut(&mut self) -> (store: &mut Store)
        ensures
            store@ == old(self)@.store,
            final(store)@ == final(self)@.store,
            final(self)@.client == old(self)@.client,
            final(self)@.mail == old(self)@.mail,
            final(self)@.base_url == old(self)@.base_url,
    {
        &mut self.store
    }

    /// The e-mail service.
    pub fn email_server(&self) -> (server: &MailServer)
        ensures
            server@ == self@.mail,
    {
        &self.email_server
    }

    /// Hands `request` to the e-mail service.
    fn send(&mut self, request: EmailRequest) -> (reply: Option<u16>)
        ensures
            (final(self)@, reply) == old(self)@.send(request@),
    {
        self.email_server.receive(request)
    }

    /// Does what a subscription asks for, and answers.
    pub fn answer_subscription(&mut self, action: SubscribeAction) -> (event: SubscribeEvent)
        ensures
            (final(self)@, event) == old(self)@.answer_subscription(action@),
    {
        match action {
            SubscribeAction::BeginTransaction => SubscribeEvent::Store(self.store.begin()),
            SubscribeAction::InsertSubscriber(row) => SubscribeEvent::Store(
                self.store.insert_subscriber(row),
            ),
            SubscribeAction::InsertToken(row) => SubscribeEvent::Store(self.store.insert_token(row)),
            SubscribeAction::Commit => SubscribeEvent::Store(self.store.commit()),
            SubscribeAction::Rollback => SubscribeEvent::Store(self.store.rollback()),
            SubscribeAction::SendEmail(email) => {
                let request = self.email_client.request(email);
                SubscribeEvent::Mail(self.send(request))
            },
            SubscribeAction::Respond(_) => SubscribeEvent::Store(StoreOutcome::Failed),
        }
    }

    /// Runs `subscription` to its end.
    #[verifier::loop_isolation(false)]
    pub fn run_subscription(&mut self, subscription: Subscription) -> (outcome: Result<
        (),
        SubscribeError,
    >)
        ensures
            (final(self)@, outcome) == old(self)@.run_subscription(subscription@),
    {
        let mut subscription = subscription;
        let ghost start = self@;
        let ghost first = subscription@;
        loop
            invariant
                self@.run_subscription(subscription@) == start.run_subscription(first),
            decreases subscription@.phase.steps_left(),
        {
            match subscription.phase().result() {
                Some(outcome) => {
                    return outcome;
                },
                None => {},
            }
            let event = self.answer_subscription(subscription.action());
            subscription.advance(event);
        }
    }

    /// Subscribes with `form`, with this identity, time and token for the new
    /// subscriber.
    pub fn subscribe_with(
        &mut self,
        form: SubscribeFormData,
        id: u128,
        subscribed_at: i64,
        token: String,
    ) -> (outcome: Result<(), SubscribeError>)
        ensures
            (final(self)@, outcome) == old(self)@.subscribe(form@, id, subscribed_at, token@),
    {
        match Subscription::start_with(form, self.base_url.as_str(), id, subscribed_at, token) {
            Ok(subscription) => self.run_subscription(subscription),
            Err(error) => Err(error),
        }
    }

    /// Subscribes with `form`: the identity and the token of the new
    /// subscriber are drawn at random, the time is read from the clock.
    pub fn subscribe(&mut self, form: SubscribeFormData) -> (outcome: Result<(), SubscribeError>)
        ensures
            exists|id: u128, subscribed_at: i64, token: Seq<char>|
                {
                    &&& is_random_uuid(id)
                    &&& is_subscription_token(token)
                    &&& (final(self)@, outcome) == #[trigger] old(self)@.subscribe(
                        form@,
                        id,
                        subscribed_at,
                        token,
                    )
                },
    {
        match Subscription::start(form, self.base_url.as_str()) {
            Ok(subscription) => {
                let ghost drawn = subscription@;
                let outcome = self.run_subscription(subscription);
                assert((self@, outcome) == old(self)@.subscribe(
                    form@,
                    drawn.id,
                    drawn.subscribed_at,
                    drawn.token,
                ));
                outcome
            },
            Err(error) => {
                let id = 0x4000_8000_0000_0000_0000u128;
                assert(is_random_uuid(id)) by (bit_vector)
                    requires
                        id == 0x4000_8000_0000_0000_0000u128,
                ;
                let ghost token = Seq::new(25, |i: int| 'a');
                assert((self@, Err::<(), SubscribeError>(error)) == old(self)@.subscribe(
                    form@,
                    id,
                    0,
                    token,
                ));
                Err(error)
            },
        }
    }

    /// Does what a confirmation asks for, and answers.
    pub fn answer_confirmation(&mut self, action: ConfirmAction) -> (event: ConfirmEvent)
        ensures
            (final(self)@, event) == old(self)@.answer_confirmation(action@),
    {
        match action {
            ConfirmAction::FindOwner(token) => ConfirmEvent::Owner(
                self.store.owner_of(token.as_str()),
            ),
            ConfirmAction::ConfirmSubscriber(id) => ConfirmEvent::Store(
                self.store.confirm_subscriber(id),
            ),
            ConfirmAction::Respond(_) => ConfirmEvent::Store(StoreOutcome::Failed),
        }
    }

    /// Runs `confirmation` to its end.
    #[verifier::loop_isolation(false)]
    pub fn run_confirmation(&mut self, confirmation: Confirmation) -> (outcome: Result<
        (),
        ConfirmError,
    >)
        ensures
            (final(self)@, outcome) == old(self)@.run_confirmation(confirmation@),
    {
        let mut confirmation = confirmation;
        let ghost start = self@;
        let ghost first = confirmation@;
        loop
            invariant
                self@.run_confirmation(confirmation@) == start.run_confirmation(first),
            decreases confirmation@.phase.steps_left(),
        {
            match confirmation.phase().result() {
                Some(outcome) => {
                    return outcome;
                },
                None => {},
            }
            let event = self.answer_confirmation(confirmation.action());
            confirmation.advance(event);
        }
    }

    /// Confirms the subscription that the token of `parameters` is bound to.
    pub fn confirm(&mut self, parameters: Parameters) -> (outcome: Result<(), ConfirmError>)
        ensures
            (final(self)@, outcome) == old(self)@.confirm(parameters@),
    {
        self.run_confirmation(Confirmation::start(parameters))
    }

    /// Does what a delivery asks for, and answers.
    pub fn answer_delivery(&mut self, action: DeliveryAction) -> (event: DeliveryEvent)
        ensures
            (final(self)@, event@) == old(self)@.answer_delivery(action@),
    {
        match action {
            DeliveryAction::FindUser(username) => DeliveryEvent::User(
                self.store.credential_of(username.as_str()),
            ),
            DeliveryAction::LoadSubscribers => {
                DeliveryEvent::Subscribers(Some(self.store.confirmed_subscribers()))
            },
            DeliveryAction::SendEmail(email) => {
                let request = self.email_client.request(email);
                DeliveryEvent::Mail(self.send(request))
            },
            DeliveryAction::Respond(_) => DeliveryEvent::Mail(None),
        }
    }

    /// Runs `delivery` to its end.
    #[verifier::loop_isolation(false)]
    pub fn run_delivery(&mut self, delivery: Delivery) -> (outcome: Result<(), DeliverError>)
        ensures
            (final(self)@, outcome) == old(self)@.run_delivery(delivery@),
    {
        let mut delivery = delivery;
        let ghost start = self@;
        let ghost first = delivery@;
        loop
            invariant
                self@.run_delivery(delivery@) == start.run_delivery(first),
            decreases delivery@.phase.rank(), delivery@.sends_left(),
        {
            match delivery.phase().result() {
                Some(outcome) => {
                    return outcome;
                },
                None => {},
            }
            let event = self.answer_delivery(delivery.action());
            delivery.advance(event);
        }
    }

    /// Delivers `data` for the caller who sent this `Authorization` header,
    /// `None` where the request has none.
    pub fn deliver(&mut self, data: DeliveryData, authorization: Option<&[u8]>) -> (outcome: Result<
        (),
        DeliverError,
    >)
        ensures
            (final(self)@, outcome) == old(self)@.deliver(data@, header_view(authorization)),
    {
        self.run_delivery(Delivery::start(data, authorization))
    }

    /// Checks the credentials of `form` against the store.
    pub fn authenticate(&self, form: FormData) -> (validated: Result<u128, AuthError>)
        ensures
            validated == credentials_check(
                form@,
                self@.store.committed.credential_of(form@.username),
            ),
    {
        let credentials = credentials_of(form);
        let stored = self.store.credential_of(credentials.username.as_str());
        validate_credentials(&credentials, stored.as_ref())
    }

    /// Logs in with `form`.
    pub fn login(&self, form: FormData) -> (response: Response)
        ensures
            response == Response::SeeOther,
    {
        login_response(self.authenticate(form))
    }
}

} // verus!
