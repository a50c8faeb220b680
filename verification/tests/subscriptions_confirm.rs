use stoic_newsletter::domain::Email;
use stoic_newsletter::email_client::EmailClient;
use stoic_newsletter::http::Response;
use stoic_newsletter::routes::subscriptions::{subscribe_response, SubscribeFormData};
use stoic_newsletter::routes::subscriptions_confirm::{
    confirm_response, ConfirmAction, ConfirmError, ConfirmEvent, ConfirmPhase, Confirmation,
    Parameters,
};
use stoic_newsletter::simulation::{MailServer, Simulation};
use stoic_newsletter::store::{Status, Store, StoreOutcome};

fn app() -> Simulation {
    let sender = Email::parse(String::from("test@email.com")).expect("Failed to parse email");
    let client = EmailClient::new(String::from("http://mail.test"), sender, String::from("123authcode"));
    Simulation::new(Store::new(), client, MailServer::new(), String::from("http://127.0.0.1:8000"))
}

fn le_guin() -> SubscribeFormData {
    SubscribeFormData { name: String::from("le guin"), email: String::from("ursula_le_guin@gmail.com") }
}

fn parameters(token: &str) -> Parameters {
    Parameters { subscription_token: String::from(token) }
}

/// The token of the link in the mail that the service received.
fn token_in_link(app: &Simulation, call: usize) -> String {
    let body = &app.email_server().received()[call].payload.content[0].value;
    let prefix = "http://127.0.0.1:8000/subscriptions/confirm?subscription_token=";
    let start = body.find(prefix).expect("no confirmation link") + prefix.len();
    body[start..start + 25].to_string()
}

#[test]
fn test_click_on_the_confirmation_link_confirms_the_subscriber() {
    let mut app = app();
    let outcome = app.subscribe(le_guin());
    assert_eq!(subscribe_response(outcome).status_code(), 200);

    let token = token_in_link(&app, 0);
    assert_eq!(app.confirm(parameters(&token)), Ok(()));

    let saved = app.store().tables().subscriptions();
    assert_eq!(saved.len(), 1);
    assert_eq!(saved[0].email.as_ref(), "ursula_le_guin@gmail.com");
    assert_eq!(saved[0].name.as_ref(), "le guin");
    assert_eq!(saved[0].status.as_str(), "confirmed");
}

#[test]
fn test_confirmation_link_returns_200_when_called() {
    let mut app = app();
    let outcome = app.subscribe(le_guin());
    assert_eq!(subscribe_response(outcome).status_code(), 200);

    let token = token_in_link(&app, 0);
    assert_eq!(token.len(), 25);
    let outcome = app.confirm(parameters(&token));
    assert_eq!(confirm_response(outcome).status_code(), 200);
}

#[test]
fn an_unknown_token_is_refused_and_changes_nothing() {
    let mut app = app();
    assert_eq!(app.subscribe(le_guin()), Ok(()));
    for token in ["", "abcdefghijklmnopqrstuvwxy", "ursula_le_guin@gmail.com"] {
        let outcome = app.confirm(parameters(token));
        assert_eq!(outcome, Err(ConfirmError::UnknownToken));
        assert_eq!(confirm_response(outcome).status_code(), 401);
        assert_eq!(confirm_response(outcome).www_authenticate(), None);
    }
    let saved = app.store().tables().subscriptions();
    assert_eq!(saved.len(), 1);
    assert_eq!(saved[0].status, Status::PendingConfirmation);
    assert_eq!(app.store().tables().subscription_tokens().len(), 1);
}

#[test]
fn confirming_twice_succeeds_twice() {
    let mut app = app();
    assert_eq!(app.subscribe(le_guin()), Ok(()));
    let token = token_in_link(&app, 0);
    assert_eq!(app.confirm(parameters(&token)), Ok(()));
    assert_eq!(app.store().tables().subscriptions()[0].status, Status::Confirmed);
    assert_eq!(app.confirm(parameters(&token)), Ok(()));
    assert_eq!(app.store().tables().subscriptions()[0].status, Status::Confirmed);
    assert_eq!(app.store().tables().subscriptions().len(), 1);
    assert_eq!(app.store().tables().subscription_tokens().len(), 1);
    assert_eq!(app.store().tables().subscription_tokens()[0].subscription_token, token);
}

#[test]
fn a_token_confirms_its_own_subscriber_and_no_other() {
    let mut app = app();
    assert_eq!(
        app.subscribe(SubscribeFormData { name: String::from("test"), email: String::from("test@email.com") }),
        Ok(())
    );
    assert_eq!(app.subscribe(le_guin()), Ok(()));
    let second = token_in_link(&app, 1);
    assert_eq!(app.confirm(parameters(&second)), Ok(()));
    let saved = app.store().tables().subscriptions();
    assert_eq!(saved[0].status, Status::PendingConfirmation);
    assert_eq!(saved[1].status, Status::Confirmed);
    assert_eq!(saved[1].email.as_ref(), "ursula_le_guin@gmail.com");
}

#[test]
fn a_subscriber_whose_mail_failed_can_still_confirm() {
    let sender = Email::parse(String::from("test@email.com")).unwrap();
    let client = EmailClient::new(String::from("http://mail.test"), sender, String::new());
    let mut app = Simulation::new(
        Store::new(),
        client,
        MailServer::answering(vec![Some(500)]),
        String::from("http://127.0.0.1:8000"),
    );
    assert!(app.subscribe(le_guin()).is_err());
    let token = token_in_link(&app, 0);
    assert_eq!(app.confirm(parameters(&token)), Ok(()));
    assert_eq!(app.store().tables().subscriptions()[0].status, Status::Confirmed);
}

#[test]
fn a_confirmation_asks_for_its_steps_in_order() {
    let mut confirmation = Confirmation::start(parameters("t0k3n"));
    assert_eq!(confirmation.phase(), ConfirmPhase::LookingUp);
    assert_eq!(confirmation.phase().result(), None);
    match confirmation.action() {
        ConfirmAction::FindOwner(token) => assert_eq!(token, "t0k3n"),
        other => panic!("unexpected action {:?}", other),
    }
    confirmation.advance(ConfirmEvent::Owner(Some(7)));
    assert_eq!(confirmation.phase(), ConfirmPhase::Confirming(7));
    assert!(matches!(confirmation.action(), ConfirmAction::ConfirmSubscriber(7)));
    confirmation.advance(ConfirmEvent::Store(StoreOutcome::Done));
    assert_eq!(confirmation.phase(), ConfirmPhase::Succeeded);
    assert_eq!(confirmation.phase().result(), Some(Ok(())));
    assert!(matches!(confirmation.action(), ConfirmAction::Respond(Ok(()))));
    confirmation.advance(ConfirmEvent::Owner(None));
    assert_eq!(confirmation.phase(), ConfirmPhase::Succeeded);
}

#[test]
fn a_confirmation_fails_where_the_store_does() {
    let mut confirmation = Confirmation::start(parameters("t0k3n"));
    confirmation.advance(ConfirmEvent::Store(StoreOutcome::Failed));
    assert_eq!(confirmation.phase(), ConfirmPhase::Failed(ConfirmError::PersistenceFailure));
    assert!(matches!(
        confirmation.action(),
        ConfirmAction::Respond(Err(ConfirmError::PersistenceFailure))
    ));

    let mut confirmation = Confirmation::start(parameters("t0k3n"));
    confirmation.advance(ConfirmEvent::Owner(None));
    assert_eq!(confirmation.phase(), ConfirmPhase::Failed(ConfirmError::UnknownToken));
    assert_eq!(confirmation.phase().result(), Some(Err(ConfirmError::UnknownToken)));

    for event in [
        ConfirmEvent::Store(StoreOutcome::Failed),
        ConfirmEvent::Store(StoreOutcome::UniqueViolation),
        ConfirmEvent::Owner(Some(7)),
    ] {
        let mut confirmation = Confirmation::start(parameters("t0k3n"));
        confirmation.advance(ConfirmEvent::Owner(Some(7)));
        confirmation.advance(event);
        assert_eq!(confirmation.phase(), ConfirmPhase::Failed(ConfirmError::PersistenceFailure));
    }
}

#[test]
fn every_outcome_of_confirming_has_its_answer() {
    assert_eq!(confirm_response(Ok(())), Response::Success);
    assert_eq!(confirm_response(Err(ConfirmError::UnknownToken)), Response::Unauthorized);
    assert_eq!(confirm_response(Err(ConfirmError::PersistenceFailure)), Response::InternalServerError);
    assert_eq!(Response::Unauthorized.status_code(), 401);
}
