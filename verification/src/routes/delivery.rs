//! Delivery: a caller who proves to be a user has one message sent to every
//! confirmed subscriber, one after the other, until a send fails.

use crate::auth::{
    basic_auth, basic_credentials, credentials_check, header_view, validate_credentials,
    AuthError, Credentials, CredentialsView, StoredCredential, StoredCredentialView,
};
use crate::domain::subscriber::SubscriberView;
use crate::domain::{Email, Subscriber, SubscriberName};
use crate::email_client::{outcome_of, EmailClient, OutgoingEmail, OutgoingEmailView};
use crate::http::Response;
use crate::store::subscribers_view;
use vstd::prelude::*;
use vstd::string::*;

verus! {

/// The message that is to be delivered.
#[derive(Debug)]
pub struct DeliveryData {
    pub content: String,
    pub subject: String,
}

/// The message as two texts.
pub struct DeliveryDataView {
    pub content: Seq<char>,
    pub subject: Seq<char>,
}

impl View for DeliveryData {
    type V = DeliveryDataView;

    open spec fn view(&self) -> DeliveryDataView {
        DeliveryDataView { content: self.content@, subject: self.subject@ }
    }
}

/// Why a message was not delivered, or not to everyone.
#[derive(Clone, Copy, Debug, PartialEq, Eq, Structural)]
pub enum DeliverError {
    /// The caller was not authenticated, for this reason.
    Unauthorized(AuthError),
    /// The store failed; nothing was sent.
    PersistenceFailure,
    /// A send failed; the subscribers before it have the message, the others
    /// do not.
    DeliveryFailure,
}

/// The answer to a request for delivery. Whatever the reason, a caller who
/// was not authenticated gets the same challenge.
pub open spec fn deliver_response_of(outcome: Result<(), DeliverError>) -> Response {
    match outcome {
        Ok(()) => Response::Success,
        Err(DeliverError::Unauthorized(_)) => Response::Challenge,
        Err(DeliverError::PersistenceFailure) => Response::InternalServerError,
        Err(DeliverError::DeliveryFailure) => Response::InternalServerError,
    }
}

/// The answer to a request for delivery.
pub fn deliver_response(outcome: Result<(), DeliverError>) -> (response: Response)
    ensures
        response == deliver_response_of(outcome),
{
    match outcome {
        Ok(()) => Response::Success,
        Err(DeliverError::Unauthorized(_)) => Response::Challenge,
        Err(DeliverError::PersistenceFailure) => Response::InternalServerError,
        Err(DeliverError::DeliveryFailure) => Response::InternalServerError,
    }
}

/// How far a delivery has come.
#[derive(Clone, Copy, Debug, PartialEq, Eq, Structural)]
pub enum DeliveryPhase {
    /// The caller's user record is being looked up.
    Authenticating,
    /// The confirmed subscribers are being loaded.
    Loading,
    /// The message is being sent to the subscriber at this position.
    Sending(usize),
    /// Every confirmed subscriber has the message.
    Succeeded,
    /// The delivery ended with this error.
    Failed(DeliverError),
}

/// An answer to an action.
pub enum DeliveryEvent {
    /// What the store holds under the user name; `None` where it holds
    /// nothing or the lookup failed.
    User(Option<StoredCredential>),
    /// The confirmed subscribers; `None` where loading them failed.
    Subscribers(Option<Vec<Subscriber>>),
    /// The status with which the e-mail service answered, `None` where no
    /// answer came.
    Mail(Option<u16>),
}

/// An answer with its texts as sequences.
pub enum DeliveryEventView {
    User(Option<StoredCredentialView>),
    Subscribers(Option<Seq<SubscriberView>>),
    Mail(Option<u16>),
}

impl View for DeliveryEvent {
    type V = DeliveryEventView;

    open spec fn view(&self) -> DeliveryEventView {
        match self {
            DeliveryEvent::User(stored) => DeliveryEventView::User(
                match stored {
                    Some(record) => Some(record@),
                    None => None,
                },
            ),
            DeliveryEvent::Subscribers(loaded) => DeliveryEventView::Subscribers(
                match loaded {
                    Some(list) => Some(subscribers_view(list@)),
                    None => None,
                },
            ),
            DeliveryEvent::Mail(reply) => DeliveryEventView::Mail(*reply),
        }
    }
}

/// What a delivery asks for next.
#[derive(Debug)]
pub enum DeliveryAction {
    FindUser(String),
    LoadSubscribers,
    SendEmail(OutgoingEmail),
    Respond(Result<(), DeliverError>),
}

/// An action with its texts as sequences.
pub enum DeliveryActionView {
    FindUser(Seq<char>),
    LoadSubscribers,
    SendEmail(OutgoingEmailView),
    Respond(Result<(), DeliverError>),
}

impl View for DeliveryAction {
    type V = DeliveryActionView;

    open spec fn view(&self) -> DeliveryActionView {
        match self {
            DeliveryAction::FindUser(username) => DeliveryActionView::FindUser(username@),
            DeliveryAction::LoadSubscribers => DeliveryActionView::LoadSubscribers,
            DeliveryAction::SendEmail(email) => DeliveryActionView::SendEmail(email@),
            DeliveryAction::Respond(outcome) => DeliveryActionView::Respond(*outcome),
        }
    }
}

impl DeliveryPhase {
    /// The outcome, once nothing is left to do.
    pub open spec fn outcome(self) -> Option<Result<(), DeliverError>> {
        match self {
            DeliveryPhase::Succeeded => Some(Ok(())),
            DeliveryPhase::Failed(error) => Some(Err(error)),
            _ => None,
        }
    }

    /// The phases in their order, counted down to the end.
    pub open spec fn rank(self) -> nat {
        match self {
            DeliveryPhase::Authenticating => 3,
            DeliveryPhase::Loading => 2,
            DeliveryPhase::Sending(_) => 1,
            DeliveryPhase::Succeeded => 0,
            DeliveryPhase::Failed(_) => 0,
        }
    }

    /// The outcome, once nothing is left to do.
    pub fn result(self) -> (outcome: Option<Result<(), DeliverError>>)
        ensures
            outcome == self.outcome(),
    {
        match self {
            DeliveryPhase::Succeeded => Some(Ok(())),
            DeliveryPhase::Failed(error) => Some(Err(error)),
            _ => None,
        }
    }
}

/// A delivery under way: the message, the caller's credentials, the
/// subscribers once they are loaded, and how far it has come.
pub struct Delivery {
    data: DeliveryData,
    credentials: Option<Credentials>,
    recipients: Vec<Subscriber>,
    phase: DeliveryPhase,
}

/// A delivery under way, with its texts as sequences.
pub struct DeliveryView {
    pub data: DeliveryDataView,
    pub credentials: Option<CredentialsView>,
    pub recipients: Seq<SubscriberView>,
    pub phase: DeliveryPhase,
}

impl View for Delivery {
    type V = DeliveryView;

    closed spec fn view(&self) -> DeliveryView {
        DeliveryView {
            data: self.data@,
            credentials: match self.credentials {
                Some(credentials) => Some(credentials@),
                None => None,
            },
            recipients: subscribers_view(self.recipients@),
            phase: self.phase,
        }
    }
}

impl DeliveryView {
    /// The delivery that a request starts: it has failed already where the
    /// header carries no credentials.
    pub open spec fn started(data: DeliveryDataView, authorization: Option<Seq<u8>>) -> DeliveryView {
        match basic_credentials(authorization) {
            Ok(credentials) => DeliveryView {
                data,
                credentials: Some(credentials),
                recipients: Seq::empty(),
                phase: DeliveryPhase::Authenticating,
            },
            Err(error) => DeliveryView {
                data,
                credentials: None,
                recipients: Seq::empty(),
                phase: DeliveryPhase::Failed(DeliverError::Unauthorized(error)),
            },
        }
    }

    /// What holds of every delivery: while the caller is being authenticated
    /// the credentials are at hand, and the subscriber to whom the message is
    /// being sent is one of those that were loaded.
    pub open spec fn well_formed(self) -> bool {
        &&& self.phase is Authenticating ==> self.credentials is Some
        &&& self.phase matches DeliveryPhase::Sending(position) ==> position < self.recipients.len()
    }

    /// The message for the subscriber at `position`.
    pub open spec fn email_for(self, position: int) -> OutgoingEmailView {
        OutgoingEmailView {
            recipient: self.recipients[position].email,
            subject: self.data.subject,
            body: self.data.content,
        }
    }

    /// What the delivery asks for in its phase.
    pub open spec fn action(self) -> DeliveryActionView {
        match self.phase {
            DeliveryPhase::Authenticating => DeliveryActionView::FindUser(
                self.credentials->Some_0.username,
            ),
            DeliveryPhase::Loading => DeliveryActionView::LoadSubscribers,
            DeliveryPhase::Sending(position) => DeliveryActionView::SendEmail(
                self.email_for(position as int),
            ),
            DeliveryPhase::Succeeded => DeliveryActionView::Respond(Ok(())),
            DeliveryPhase::Failed(error) => DeliveryActionView::Respond(Err(error)),
        }
    }

    /// The phase after the credentials were checked against `stored`.
    pub open spec fn authenticated(self, stored: Option<StoredCredentialView>) -> DeliveryPhase {
        match credentials_check(self.credentials->Some_0, stored) {
            Ok(_) => DeliveryPhase::Loading,
            Err(error) => DeliveryPhase::Failed(DeliverError::Unauthorized(error)),
        }
    }

    /// The phase after the send at `position` was answered with `reply`: the
    /// next subscriber's turn, the end, or failure at the first send that
    /// fails.
    pub open spec fn sent(self, position: usize, reply: Option<u16>) -> DeliveryPhase {
        if outcome_of(reply) is Err {
            DeliveryPhase::Failed(DeliverError::DeliveryFailure)
        } else if position < usize::MAX && position + 1 < self.recipients.len() {
            DeliveryPhase::Sending((position + 1) as usize)
        } else {
            DeliveryPhase::Succeeded
        }
    }

    /// The delivery once `event` has answered its action. An answer of
    /// another kind than the awaited one fails the phase.
    pub open spec fn after(self, event: DeliveryEventView) -> DeliveryView {
        match self.phase {
            DeliveryPhase::Authenticating => match event {
                DeliveryEventView::User(stored) => DeliveryView {
                    phase: self.authenticated(stored),
                    ..self
                },
                _ => DeliveryView {
                    phase: DeliveryPhase::Failed(
                        DeliverError::Unauthorized(AuthError::InvalidCredentials),
                    ),
                    ..self
                },
            },
            DeliveryPhase::Loading => match event {
                DeliveryEventView::Subscribers(Some(list)) => DeliveryView {
                    recipients: list,
                    phase: if list.len() == 0 {
                        DeliveryPhase::Succeeded
                    } else {
                        DeliveryPhase::Sending(0)
                    },
                    ..self
                },
                _ => DeliveryView {
                    phase: DeliveryPhase::Failed(DeliverError::PersistenceFailure),
                    ..self
                },
            },
            DeliveryPhase::Sending(position) => match event {
                DeliveryEventView::Mail(reply) => DeliveryView {
                    phase: self.sent(position, reply),
                    ..self
                },
                _ => DeliveryView {
                    phase: DeliveryPhase::Failed(DeliverError::DeliveryFailure),
                    ..self
                },
            },
            DeliveryPhase::Succeeded => self,
            DeliveryPhase::Failed(_) => self,
        }
    }

    /// The number of subscribers to whom the message is still to be sent.
    pub open spec fn sends_left(self) -> nat {
        match self.phase {
            DeliveryPhase::Sending(position) => if position < self.recipients.len() {
                (self.recipients.len() - position) as nat
            } else {
                0
            },
            _ => 0,
        }
    }
}

impl Delivery {
    #[verifier::type_invariant]
    spec fn is_well_formed(self) -> bool {
        self@.well_formed()
    }

    /// Starts the delivery of `data` for the caller who sent this
    /// `Authorization` header, `None` where the request has none.
    pub fn start(data: DeliveryData, authorization: Option<&[u8]>) -> (delivery: Delivery)
        ensures
            delivery@ == DeliveryView::started(data@, header_view(authorization)),
            delivery@.well_formed(),
    {
        match basic_auth(authorization) {
            Ok(credentials) => {
                let delivery = Delivery {
                    data,
                    credentials: Some(credentials),
                    recipients: Vec::new(),
                    phase: DeliveryPhase::Authenticating,
                };
                assert(delivery@.recipients =~= Seq::empty());
                delivery
            },
            Err(error) => {
                let delivery = Delivery {
                    data,
                    credentials: None,
                    recipients: Vec::new(),
                    phase: DeliveryPhase::Failed(DeliverError::Unauthorized(error)),
                };
                assert(delivery@.recipients =~= Seq::empty());
                delivery
            },
        }
    }

    /// The phase.
    pub fn phase(&self) -> (phase: DeliveryPhase)
        ensures
            phase == self@.phase,
            self@.well_formed(),
    {
        proof {
            use_type_invariant(self);
        }
        self.phase
    }

    /// What is to be asked next.
    pub fn action(&self) -> (action: DeliveryAction)
        ensures
            action@ == self@.action(),
    {
        proof {
            use_type_invariant(self);
        }
        match self.phase {
            DeliveryPhase::Authenticating => match &self.credentials {
                Some(credentials) => DeliveryAction::FindUser(credentials.username.clone()),
                None => DeliveryAction::Respond(
                    Err(DeliverError::Unauthorized(AuthError::MissingCredentials)),
                ),
            },
            DeliveryPhase::Loading => DeliveryAction::LoadSubscribers,
            DeliveryPhase::Sending(position) => DeliveryAction::SendEmail(
                OutgoingEmail {
                    recipient: self.recipients[position].email.clone(),
                    subject: self.data.subject.clone(),
                    body: self.data.content.clone(),
                },
            ),
            DeliveryPhase::Succeeded => DeliveryAction::Respond(Ok(())),
            DeliveryPhase::Failed(error) => DeliveryAction::Respond(Err(error)),
        }
    }

    /// Takes the answer to the last action.
    pub fn advance(&mut self, event: DeliveryEvent)
        ensures
            final(self)@ == old(self)@.after(event@),
            final(self)@.well_formed(),
    {
        proof {
            use_type_invariant(&*self);
        }
        match self.phase {
            DeliveryPhase::Authenticating => {
                let phase = match (&self.credentials, event) {
                    (Some(credentials), DeliveryEvent::User(stored)) => {
                        match validate_credentials(credentials, stored.as_ref()) {
                            Ok(_) => DeliveryPhase::Loading,
                            Err(error) => DeliveryPhase::Failed(DeliverError::Unauthorized(error)),
                        }
                    },
                    _ => DeliveryPhase::Failed(
                        DeliverError::Unauthorized(AuthError::InvalidCredentials),
                    ),
                };
                self.phase = phase;
            },
            DeliveryPhase::Loading => match event {
                DeliveryEvent::Subscribers(Some(list)) => {
                    let phase = if list.len() == 0 {
                        DeliveryPhase::Succeeded
                    } else {
                        DeliveryPhase::Sending(0)
                    };
                    self.recipients = list;
                    self.phase = phase;
                },
                _ => {
                    self.phase = DeliveryPhase::Failed(DeliverError::PersistenceFailure);
                },
            },
            DeliveryPhase::Sending(position) => match event {
                DeliveryEvent::Mail(reply) => {
                    let count = self.recipients.len();
                    assert(self@.recipients.len() == count);
                    let phase = if EmailClient::outcome(reply).is_err() {
                        DeliveryPhase::Failed(DeliverError::DeliveryFailure)
                    } else if position + 1 < count {
                        DeliveryPhase::Sending(position + 1)
                    } else {
                        DeliveryPhase::Succeeded
                    };
                    self.phase = phase;
                },
                _ => {
                    self.phase = DeliveryPhase::Failed(DeliverError::DeliveryFailure);
                },
            },
            DeliveryPhase::Succeeded => {},
            DeliveryPhase::Failed(_) => {},
        }
    }
}

/// The subscribers that rows of name and address describe, in the order of
/// the rows; `None` where a name or an address is not valid.
pub open spec fn subscribers_in(rows: Seq<(Seq<char>, Seq<char>)>) -> Option<Seq<SubscriberView>> {
    if forall|i: int|
        0 <= i < rows.len() ==> (SubscriberView {
            name: (#[trigger] rows[i]).0,
            email: rows[i].1,
        }).is_valid() {
        Some(rows.map_values(|row: (Seq<char>, Seq<char>)| SubscriberView { name: row.0, email: row.1 }))
    } else {
        None
    }
}

/// The rows of a list, each as two texts.
pub open spec fn rows_view(rows: Seq<(String, String)>) -> Seq<(Seq<char>, Seq<char>)> {
    rows.map_values(|row: (String, String)| (row.0@, row.1@))
}

/// Reads the subscribers out of rows of name and address, as the store holds
/// them.
pub fn subscribers_from_rows(rows: &Vec<(String, String)>) -> (r: Option<Vec<Subscriber>>)
    ensures
        match r {
            Some(list) => subscribers_in(rows_view(rows@)) == Some(subscribers_view(list@)),
            None => subscribers_in(rows_view(rows@)) is None,
        },
{
    let ghost all = rows_view(rows@);
    let mut list: Vec<Subscriber> = Vec::new();
    let mut i: usize = 0;
    while i < rows.len()
        invariant
            i <= rows.len(),
            all == rows_view(rows@),
            list@.len() == i,
            forall|j: int|
                0 <= j < i ==> (#[trigger] list@[j])@ == (SubscriberView {
                    name: all[j].0,
                    email: all[j].1,
                }) && list@[j]@.is_valid(),
        decreases rows.len() - i,
    {
        let ghost row = SubscriberView { name: all[i as int].0, email: all[i as int].1 };
        let name = match SubscriberName::parse(rows[i].0.clone()) {
            Ok(name) => name,
            Err(_) => {
                assert(!row.is_valid());
                return None;
            },
        };
        let email = match Email::parse(rows[i].1.clone()) {
            Ok(email) => email,
            Err(_) => {
                assert(!row.is_valid());
                return None;
            },
        };
        list.push(Subscriber { name, email });
        i = i + 1;
    }
    assert forall|j: int| 0 <= j < all.len() implies (SubscriberView {
        name: (#[trigger] all[j]).0,
        email: all[j].1,
    }).is_valid() by {
        assert(list@[j]@.is_valid());
    }
    assert(subscribers_view(list@) =~= all.map_values(
        |row: (Seq<char>, Seq<char>)| SubscriberView { name: row.0, email: row.1 },
    ));
    Some(list)
}

/// Every answer brings a delivery nearer to its end, and leaves a
/// well-formed one well-formed.
pub proof fn lemma_deliver_progress(delivery: DeliveryView, event: DeliveryEventView)
    requires
        delivery.phase.outcome() is None,
    ensures
        delivery.well_formed() ==> delivery.after(event).well_formed(),
        delivery.after(event).phase.rank() < delivery.phase.rank() || (delivery.after(
            event,
        ).phase.rank() == delivery.phase.rank() && delivery.after(event).sends_left()
            < delivery.sends_left()),
{
}

/// No subscriber is loaded, and so none is sent to, before the caller's
/// credentials were accepted; and a send that fails is the last.
pub proof fn lemma_deliver_order(delivery: DeliveryView, event: DeliveryEventView)
    ensures
        delivery.after(event).phase == DeliveryPhase::Loading && delivery.phase
            != DeliveryPhase::Loading ==> delivery.phase == DeliveryPhase::Authenticating && (
        event matches DeliveryEventView::User(stored) && credentials_check(
            delivery.credentials->Some_0,
            stored,
        ) is Ok),
        delivery.after(event).phase is Sending && !(delivery.phase is Sending) ==> delivery.phase
            == DeliveryPhase::Loading,
        delivery.phase is Sending && !(event matches DeliveryEventView::Mail(reply) && outcome_of(
            reply,
        ) is Ok) ==> delivery.after(event).phase == DeliveryPhase::Failed(
            DeliverError::DeliveryFailure,
        ),
{
}

} // verus!
