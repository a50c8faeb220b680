//! Confirming: the token of a confirmation link is resolved to its
//! subscriber, whose status is then set to confirmed.

use crate::http::Response;
use crate::store::StoreOutcome;
use vstd::prelude::*;
use vstd::string::*;

verus! {

/// The parameters of a confirmation link.
#[derive(Debug)]
pub struct Parameters {
    pub subscription_token: String,
}

impl View for Parameters {
    type V = Seq<char>;

    open spec fn view(&self) -> Seq<char> {
        self.subscription_token@
    }
}

/// Why a subscription was not confirmed.
#[derive(Clone, Copy, Debug, PartialEq, Eq, Structural)]
pub enum ConfirmError {
    /// The token is bound to no subscriber.
    UnknownToken,
    /// The store failed.
    PersistenceFailure,
}

/// The answer to a confirmation. An unknown token is answered as a lack of
/// authorisation, which does not tell whether it ever existed.
pub open spec fn confirm_response_of(outcome: Result<(), ConfirmError>) -> Response {
    match outcome {
        Ok(()) => Response::Success,
        Err(ConfirmError::UnknownToken) => Response::Unauthorized,
        Err(ConfirmError::PersistenceFailure) => Response::InternalServerError,
    }
}

/// The answer to a confirmation.
pub fn confirm_response(outcome: Result<(), ConfirmError>) -> (response: Response)
    ensures
        response == confirm_response_of(outcome),
{
    match outcome {
        Ok(()) => Response::Success,
        Err(ConfirmError::UnknownToken) => Response::Unauthorized,
        Err(ConfirmError::PersistenceFailure) => Response::InternalServerError,
    }
}

/// How far a confirmation has come.
#[derive(Clone, Copy, Debug, PartialEq, Eq, Structural)]
pub enum ConfirmPhase {
    /// The subscriber of the token is being looked up.
    LookingUp,
    /// The subscriber with this identity is being confirmed.
    Confirming(u128),
    /// The subscriber is confirmed.
    Succeeded,
    /// The confirmation ended with this error.
    Failed(ConfirmError),
}

/// An answer to an action.
#[derive(Clone, Copy, Debug, PartialEq, Eq, Structural)]
pub enum ConfirmEvent {
    /// The lookup found this subscriber, or none.
    Owner(Option<u128>),
    /// The store's answer to the update, or the failure of the lookup.
    Store(StoreOutcome),
}

/// What a confirmation asks for next.
#[derive(Debug)]
pub enum ConfirmAction {
    FindOwner(String),
    ConfirmSubscriber(u128),
    Respond(Result<(), ConfirmError>),
}

/// An action with its text as a sequence.
pub enum ConfirmActionView {
    FindOwner(Seq<char>),
    ConfirmSubscriber(u128),
    Respond(Result<(), ConfirmError>),
}

impl View for ConfirmAction {
    type V = ConfirmActionView;

    open spec fn view(&self) -> ConfirmActionView {
        match self {
            ConfirmAction::FindOwner(token) => ConfirmActionView::FindOwner(token@),
            ConfirmAction::ConfirmSubscriber(id) => ConfirmActionView::ConfirmSubscriber(*id),
            ConfirmAction::Respond(outcome) => ConfirmActionView::Respond(*outcome),
        }
    }
}

impl ConfirmPhase {
    /// The phase that follows when `event` answers the action of this one.
    pub open spec fn after(self, event: ConfirmEvent) -> ConfirmPhase {
        match self {
            ConfirmPhase::LookingUp => match event {
                ConfirmEvent::Owner(Some(id)) => ConfirmPhase::Confirming(id),
                ConfirmEvent::Owner(None) => ConfirmPhase::Failed(ConfirmError::UnknownToken),
                _ => ConfirmPhase::Failed(ConfirmError::PersistenceFailure),
            },
            ConfirmPhase::Confirming(_) => match event {
                ConfirmEvent::Store(StoreOutcome::Done) => ConfirmPhase::Succeeded,
                _ => ConfirmPhase::Failed(ConfirmError::PersistenceFailure),
            },
            ConfirmPhase::Succeeded => ConfirmPhase::Succeeded,
            ConfirmPhase::Failed(error) => ConfirmPhase::Failed(error),
        }
    }

    /// The number of actions that are at most still to be answered.
    pub open spec fn steps_left(self) -> nat {
        match self {
            ConfirmPhase::LookingUp => 2,
            ConfirmPhase::Confirming(_) => 1,
            ConfirmPhase::Succeeded => 0,
            ConfirmPhase::Failed(_) => 0,
        }
    }

    /// The outcome, once nothing is left to do.
    pub open spec fn outcome(self) -> Option<Result<(), ConfirmError>> {
        match self {
            ConfirmPhase::Succeeded => Some(Ok(())),
            ConfirmPhase::Failed(error) => Some(Err(error)),
            _ => None,
        }
    }

    /// The phase that follows when `event` answers the action of this one.
    pub fn next(self, event: ConfirmEvent) -> (phase: ConfirmPhase)
        ensures
            phase == self.after(event),
    {
        match self {
            ConfirmPhase::LookingUp => match event {
                ConfirmEvent::Owner(Some(id)) => ConfirmPhase::Confirming(id),
                ConfirmEvent::Owner(None) => ConfirmPhase::Failed(ConfirmError::UnknownToken),
                _ => ConfirmPhase::Failed(ConfirmError::PersistenceFailure),
            },
            ConfirmPhase::Confirming(_) => match event {
                ConfirmEvent::Store(StoreOutcome::Done) => ConfirmPhase::Succeeded,
                _ => ConfirmPhase::Failed(ConfirmError::PersistenceFailure),
            },
            ConfirmPhase::Succeeded => ConfirmPhase::Succeeded,
            ConfirmPhase::Failed(error) => ConfirmPhase::Failed(error),
        }
    }

    /// The outcome, once nothing is left to do.
    pub fn result(self) -> (outcome: Option<Result<(), ConfirmError>>)
        ensures
            outcome == self.outcome(),
    {
        match self {
            ConfirmPhase::Succeeded => Some(Ok(())),
            ConfirmPhase::Failed(error) => Some(Err(error)),
            _ => None,
        }
    }
}

/// A confirmation under way: the token, and how far it has come.
#[derive(Debug)]
pub struct Confirmation {
    token: String,
    phase: ConfirmPhase,
}

/// A confirmation under way, with its token as a sequence.
pub struct ConfirmationView {
    pub token: Seq<char>,
    pub phase: ConfirmPhase,
}

impl View for Confirmation {
    type V = ConfirmationView;

    closed spec fn view(&self) -> ConfirmationView {
        ConfirmationView { token: self.token@, phase: self.phase }
    }
}

impl ConfirmationView {
    /// The confirmation that a link with this token starts.
    pub open spec fn started(token: Seq<char>) -> ConfirmationView {
        ConfirmationView { token, phase: ConfirmPhase::LookingUp }
    }

    /// What the confirmation asks for in its phase.
    pub open spec fn action(self) -> ConfirmActionView {
        match self.phase {
            ConfirmPhase::LookingUp => ConfirmActionView::FindOwner(self.token),
            ConfirmPhase::Confirming(id) => ConfirmActionView::ConfirmSubscriber(id),
            ConfirmPhase::Succeeded => ConfirmActionView::Respond(Ok(())),
            ConfirmPhase::Failed(error) => ConfirmActionView::Respond(Err(error)),
        }
    }

    /// The confirmation once `event` has answered its action.
    pub open spec fn after(self, event: ConfirmEvent) -> ConfirmationView {
        ConfirmationView { phase: self.phase.after(event), ..self }
    }
}

impl Confirmation {
    /// Starts the confirmation that a link with these parameters asks for.
    pub fn start(parameters: Parameters) -> (confirmation: Confirmation)
        ensures
            confirmation@ == ConfirmationView::started(parameters@),
    {
        Confirmation { token: parameters.subscription_token, phase: ConfirmPhase::LookingUp }
    }

    /// The phase.
    pub fn phase(&self) -> (phase: ConfirmPhase)
        ensures
            phase == self@.phase,
    {
        self.phase
    }

    /// What is to be asked next.
    pub fn action(&self) -> (action: ConfirmAction)
        ensures
            action@ == self@.action(),
    {
        match self.phase {
            ConfirmPhase::LookingUp => ConfirmAction::FindOwner(self.token.clone()),
            ConfirmPhase::Confirming(id) => ConfirmAction::ConfirmSubscriber(id),
            ConfirmPhase::Succeeded => ConfirmAction::Respond(Ok(())),
            ConfirmPhase::Failed(error) => ConfirmAction::Respond(Err(error)),
        }
    }

    /// Takes the answer to the last action.
    pub fn advance(&mut self, event: ConfirmEvent)
        ensures
            final(self)@ == old(self)@.after(event),
    {
        self.phase = self.phase.next(event);
    }
}

/// Every answer brings the confirmation nearer to its end.
pub proof fn lemma_confirm_progress(phase: ConfirmPhase, event: ConfirmEvent)
    requires
        phase.outcome() is None,
    ensures
        phase.after(event).steps_left() < phase.steps_left(),
{
}

/// No subscriber is confirmed but the one that the lookup found.
pub proof fn lemma_confirm_order(phase: ConfirmPhase, event: ConfirmEvent, id: u128)
    ensures
        phase.after(event) == ConfirmPhase::Confirming(id) ==> phase == ConfirmPhase::LookingUp
            && event == ConfirmEvent::Owner(Some(id)),
{
}

} // verus!
