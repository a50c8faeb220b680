use stoic_newsletter::domain::Email;
use stoic_newsletter::email_client::EmailClient;
use stoic_newsletter::http::Response;
use stoic_newsletter::routes::subscriptions::{
    confirmation_email, confirmation_link, generate_subscription_token, subscribe_response,
    SubscribeAction, SubscribeError, SubscribeEvent, SubscribeFormData, SubscribePhase,
    Subscription,
};
use stoic_newsletter::simulation::{MailServer, Simulation};
use stoic_newsletter::store::{Status, Store, StoreOutcome};

const TOKEN: &str = "abcdefghijklmnopqrstuvwxy";

fn app_with(email_server: MailServer) -> Simulation {
    let sender = Email::parse(String::from("test@email.com")).expect("Failed to parse email");
    let client = EmailClient::new(String::from("http://mail.test"), sender, String::from("123authcode"));
    Simulation::new(Store::new(), client, email_server, String::from("http://127.0.0.1"))
}

fn app() -> Simulation {
    app_with(MailServer::new())
}

fn form(name: &str, email: &str) -> SubscribeFormData {
    SubscribeFormData { name: String::from(name), email: String::from(email) }
}

fn le_guin() -> SubscribeFormData {
    form("le guin", "ursula_le_guin@gmail.com")
}

fn started() -> Subscription {
    Subscription::start_with(le_guin(), "http://127.0.0.1", 7, 1_000_000, String::from(TOKEN)).ok().unwrap()
}

fn in_phase(events: &[SubscribeEvent]) -> Subscription {
    let mut subscription = started();
    for event in events {
        subscription.advance(*event);
    }
    subscription
}

const DONE: SubscribeEvent = SubscribeEvent::Store(StoreOutcome::Done);
const TAKEN: SubscribeEvent = SubscribeEvent::Store(StoreOutcome::UniqueViolation);
const FAILED: SubscribeEvent = SubscribeEvent::Store(StoreOutcome::Failed);

#[test]
fn test_subscribe_returns_200_for_valid_form_data() {
    let mut app = app();
    let outcome = app.subscribe(le_guin());
    assert_eq!(outcome, Ok(()));
    assert_eq!(subscribe_response(outcome).status_code(), 200);
    assert_eq!(app.email_server().received().len(), 1);
}

#[test]
fn test_subscribe_persists_subscriber() {
    let mut app = app();
    let outcome = app.subscribe(le_guin());
    assert_eq!(subscribe_response(outcome).status_code(), 200);

    let saved = app.store().tables().subscriptions();
    assert_eq!(saved.len(), 1);
    assert_eq!(saved[0].email.as_ref(), "ursula_le_guin@gmail.com");
    assert_eq!(saved[0].name.as_ref(), "le guin");
    assert_eq!(saved[0].status.as_str(), "pending_confirmation");
    assert_eq!(saved[0].status, Status::PendingConfirmation);
}

#[test]
fn test_subscribe_send_confirmation_link() {
    let mut app = app();
    let outcome = app.subscribe(le_guin());
    assert_eq!(subscribe_response(outcome).status_code(), 200);

    let email_request = &app.email_server().received()[0];
    let body = &email_request.payload.content[0].value;
    assert!(body.contains("http://127.0.0.1/subscriptions/confirm?subscription_token="));
}

#[test]
fn test_subscribing_to_newsletter_with_invalid_data_returns_400() {
    let test_cases = [form("", "testemail"), form(" ", "testemail"), form("validnam", "invalidemail")];
    for case in test_cases {
        let mut app = app();
        let outcome = app.subscribe(case);
        assert_eq!(outcome, Err(SubscribeError::ValidationFailed));
        assert_eq!(subscribe_response(outcome).status_code(), 400);
        assert_eq!(app.store().tables().subscriptions().len(), 0);
        assert_eq!(app.store().tables().subscription_tokens().len(), 0);
        assert_eq!(app.email_server().received().len(), 0);
    }
}

#[test]
fn test_subscribing_with_existing_email_returns_409() {
    let mut app = app();
    assert_eq!(app.subscribe(form("test", "test@email.com")), Ok(()));

    let outcome = app.subscribe(form("le guin", "test@email.com"));
    assert_eq!(outcome, Err(SubscribeError::DuplicateEmail));
    assert_eq!(subscribe_response(outcome).status_code(), 409);
    assert_eq!(app.store().tables().subscriptions().len(), 1);
    assert_eq!(app.store().tables().subscriptions()[0].name.as_ref(), "test");
    assert_eq!(app.store().tables().subscription_tokens().len(), 1);
    assert_eq!(app.email_server().received().len(), 1);
    assert!(!app.store().in_transaction());
}

#[test]
fn a_subscription_stores_one_subscriber_and_one_token_bound_to_it() {
    let mut app = app();
    let outcome = app.subscribe_with(le_guin(), 7, 1_700_000_000_000_000, String::from(TOKEN));
    assert_eq!(outcome, Ok(()));

    let tables = app.store().tables();
    assert_eq!(tables.subscriptions().len(), 1);
    let row = &tables.subscriptions()[0];
    assert_eq!(row.id, 7);
    assert_eq!(row.subscribed_at, 1_700_000_000_000_000);
    assert_eq!(row.status, Status::PendingConfirmation);
    assert_eq!(tables.subscription_tokens().len(), 1);
    assert_eq!(tables.subscription_tokens()[0].subscription_token, TOKEN);
    assert_eq!(tables.subscription_tokens()[0].subscriber_id, 7);
    assert!(!app.store().in_transaction());
}

#[test]
fn the_confirmation_mail_is_what_the_service_receives() {
    let mut app = app();
    let outcome = app.subscribe_with(le_guin(), 7, 0, String::from(TOKEN));
    assert_eq!(outcome, Ok(()));

    let received = app.email_server().received();
    assert_eq!(received.len(), 1);
    let request = &received[0];
    assert_eq!(request.url, "http://mail.test/mail/send");
    assert_eq!(request.authorization, "Bearer 123authcode");
    assert_eq!(request.payload.from.email, "test@email.com");
    assert_eq!(request.payload.personalizations[0].to[0].email, "ursula_le_guin@gmail.com");
    assert_eq!(request.payload.subject, "Newsletter subscription");
    assert_eq!(request.payload.content[0].content_type, "text/html");
    assert_eq!(
        request.payload.content[0].value,
        "Welcome to our newsletter <br> Click <a href=\"http://127.0.0.1/subscriptions/confirm?subscription_token=abcdefghijklmnopqrstuvwxy\"here</a> to confirm the subscription"
    );
}

#[test]
fn a_mail_that_does_not_go_out_leaves_the_subscriber_stored() {
    for reply in [Some(500), Some(404), Some(301), Some(199), Some(300), None] {
        let mut app = app_with(MailServer::answering(vec![reply]));
        let outcome = app.subscribe_with(le_guin(), 7, 0, String::from(TOKEN));
        assert_eq!(outcome, Err(SubscribeError::NotificationFailure));
        assert_eq!(subscribe_response(outcome).status_code(), 500);
        assert_eq!(app.store().tables().subscriptions().len(), 1);
        assert_eq!(app.store().tables().subscriptions()[0].status, Status::PendingConfirmation);
        assert_eq!(app.store().tables().subscription_tokens().len(), 1);
        assert_eq!(app.store().owner_of(TOKEN), Some(7));
        assert_eq!(app.email_server().received().len(), 1);
    }
}

#[test]
fn every_success_status_is_a_mail_that_went_out() {
    for reply in [200, 201, 204, 299] {
        let mut app = app_with(MailServer::answering(vec![Some(reply)]));
        assert_eq!(app.subscribe_with(le_guin(), 7, 0, String::from(TOKEN)), Ok(()));
    }
}

#[test]
fn a_taken_identity_is_reported_as_a_taken_address() {
    let mut app = app();
    assert_eq!(app.subscribe_with(form("test", "test@email.com"), 7, 0, String::from(TOKEN)), Ok(()));
    let outcome = app.subscribe_with(le_guin(), 7, 0, String::from("ABCDEFGHIJKLMNOPQRSTUVWXY"));
    assert_eq!(outcome, Err(SubscribeError::DuplicateEmail));
    assert_eq!(app.store().tables().subscriptions().len(), 1);
    assert_eq!(app.store().tables().subscription_tokens().len(), 1);
}

#[test]
fn a_taken_token_fails_the_subscription_and_stores_nothing() {
    let mut app = app();
    assert_eq!(app.subscribe_with(form("test", "test@email.com"), 7, 0, String::from(TOKEN)), Ok(()));
    let outcome = app.subscribe_with(le_guin(), 8, 0, String::from(TOKEN));
    assert_eq!(outcome, Err(SubscribeError::PersistenceFailure));
    assert_eq!(subscribe_response(outcome).status_code(), 500);
    assert_eq!(app.store().tables().subscriptions().len(), 1);
    assert_eq!(app.store().tables().subscription_tokens().len(), 1);
    assert_eq!(app.email_server().received().len(), 1);
    assert!(!app.store().in_transaction());
}

#[test]
fn two_subscribers_get_two_tokens() {
    let mut app = app();
    assert_eq!(app.subscribe(form("test", "test@email.com")), Ok(()));
    assert_eq!(app.subscribe(le_guin()), Ok(()));
    let tables = app.store().tables();
    assert_eq!(tables.subscriptions().len(), 2);
    assert_eq!(tables.subscription_tokens().len(), 2);
    assert_ne!(tables.subscriptions()[0].id, tables.subscriptions()[1].id);
    assert_ne!(
        tables.subscription_tokens()[0].subscription_token,
        tables.subscription_tokens()[1].subscription_token
    );
    assert_eq!(tables.subscription_tokens()[0].subscriber_id, tables.subscriptions()[0].id);
    assert_eq!(tables.subscription_tokens()[1].subscriber_id, tables.subscriptions()[1].id);
}

#[test]
fn a_token_is_25_letters_and_digits() {
    for _ in 0..50 {
        let token = generate_subscription_token();
        assert_eq!(token.len(), 25);
        assert_eq!(token.chars().count(), 25);
        assert!(token.chars().all(|c| c.is_ascii_alphanumeric()));
    }
    assert_ne!(generate_subscription_token(), generate_subscription_token());
}

#[test]
fn a_subscription_draws_a_random_identity_and_a_token() {
    let subscription = Subscription::start(le_guin(), "http://127.0.0.1").ok().unwrap();
    assert_eq!(subscription.phase(), SubscribePhase::Beginning);
    assert_eq!(subscription.token().len(), 25);
    assert!(subscription.token().chars().all(|c| c.is_ascii_alphanumeric()));
    // A random UUID: version 4, variant 1.
    assert_eq!((subscription.id() >> 76) & 0xf, 4);
    assert_eq!((subscription.id() >> 62) & 0x3, 2);
    let other = Subscription::start(le_guin(), "http://127.0.0.1").ok().unwrap();
    assert_ne!(subscription.id(), other.id());
    assert_ne!(subscription.token(), other.token());
}

#[test]
fn a_form_that_is_not_valid_starts_nothing() {
    let started = Subscription::start(form("le guin", "invalidemail"), "http://127.0.0.1");
    assert_eq!(started.err(), Some(SubscribeError::ValidationFailed));
    let started = Subscription::start_with(form("{}", "a@b.com"), "http://127.0.0.1", 1, 2, String::from(TOKEN));
    assert_eq!(started.err(), Some(SubscribeError::ValidationFailed));
}

#[test]
fn the_link_and_the_mail_are_built_from_the_base_url_and_the_token() {
    assert_eq!(
        confirmation_link("https://list.example", "t0k3n"),
        "https://list.example/subscriptions/confirm?subscription_token=t0k3n"
    );
    let recipient = Email::parse(String::from("ursula_le_guin@gmail.com")).unwrap();
    let email = confirmation_email(&recipient, "https://list.example", "t0k3n");
    assert_eq!(email.recipient.as_ref(), "ursula_le_guin@gmail.com");
    assert_eq!(email.subject, "Newsletter subscription");
    assert_eq!(
        email.body,
        "Welcome to our newsletter <br> Click <a href=\"https://list.example/subscriptions/confirm?subscription_token=t0k3n\"here</a> to confirm the subscription"
    );
}

#[test]
fn a_subscription_asks_for_its_steps_in_order() {
    let mut subscription = started();
    assert!(matches!(subscription.action(), SubscribeAction::BeginTransaction));
    subscription.advance(DONE);
    assert_eq!(subscription.phase(), SubscribePhase::InsertingSubscriber);
    match subscription.action() {
        SubscribeAction::InsertSubscriber(row) => {
            assert_eq!(row.id, 7);
            assert_eq!(row.email.as_ref(), "ursula_le_guin@gmail.com");
            assert_eq!(row.name.as_ref(), "le guin");
            assert_eq!(row.subscribed_at, 1_000_000);
            assert_eq!(row.status, Status::PendingConfirmation);
        }
        other => panic!("unexpected action {:?}", other),
    }
    subscription.advance(DONE);
    assert_eq!(subscription.phase(), SubscribePhase::InsertingToken);
    match subscription.action() {
        SubscribeAction::InsertToken(row) => {
            assert_eq!(row.subscription_token, TOKEN);
            assert_eq!(row.subscriber_id, 7);
        }
        other => panic!("unexpected action {:?}", other),
    }
    subscription.advance(DONE);
    assert_eq!(subscription.phase(), SubscribePhase::Committing);
    assert!(matches!(subscription.action(), SubscribeAction::Commit));
    subscription.advance(DONE);
    assert_eq!(subscription.phase(), SubscribePhase::Notifying);
    match subscription.action() {
        SubscribeAction::SendEmail(email) => {
            assert_eq!(email.recipient.as_ref(), "ursula_le_guin@gmail.com");
            assert!(email.body.contains("http://127.0.0.1/subscriptions/confirm?subscription_token=abcdefghijklmnopqrstuvwxy"));
        }
        other => panic!("unexpected action {:?}", other),
    }
    subscription.advance(SubscribeEvent::Mail(Some(200)));
    assert_eq!(subscription.phase(), SubscribePhase::Succeeded);
    assert_eq!(subscription.phase().result(), Some(Ok(())));
    assert!(matches!(subscription.action(), SubscribeAction::Respond(Ok(()))));
    subscription.advance(FAILED);
    assert_eq!(subscription.phase(), SubscribePhase::Succeeded);
}

#[test]
fn a_transaction_that_cannot_be_opened_is_a_persistence_failure() {
    for event in [FAILED, TAKEN, SubscribeEvent::Mail(Some(200))] {
        let subscription = in_phase(&[event]);
        assert_eq!(subscription.phase(), SubscribePhase::Failed(SubscribeError::PersistenceFailure));
        assert!(matches!(
            subscription.action(),
            SubscribeAction::Respond(Err(SubscribeError::PersistenceFailure))
        ));
    }
}

#[test]
fn a_failed_insert_is_rolled_back_before_the_answer() {
    let subscription = in_phase(&[DONE, TAKEN]);
    assert_eq!(subscription.phase(), SubscribePhase::Aborting(SubscribeError::DuplicateEmail));
    assert_eq!(subscription.phase().result(), None);
    assert!(matches!(subscription.action(), SubscribeAction::Rollback));
    for answer in [DONE, FAILED] {
        let subscription = in_phase(&[DONE, TAKEN, answer]);
        assert_eq!(subscription.phase(), SubscribePhase::Failed(SubscribeError::DuplicateEmail));
        assert_eq!(subscription.phase().result(), Some(Err(SubscribeError::DuplicateEmail)));
    }

    let subscription = in_phase(&[DONE, FAILED]);
    assert_eq!(subscription.phase(), SubscribePhase::Aborting(SubscribeError::PersistenceFailure));
    assert!(matches!(subscription.action(), SubscribeAction::Rollback));

    for event in [TAKEN, FAILED] {
        let subscription = in_phase(&[DONE, DONE, event]);
        assert_eq!(subscription.phase(), SubscribePhase::Aborting(SubscribeError::PersistenceFailure));
        assert!(matches!(subscription.action(), SubscribeAction::Rollback));
        let subscription = in_phase(&[DONE, DONE, event, DONE]);
        assert_eq!(subscription.phase(), SubscribePhase::Failed(SubscribeError::PersistenceFailure));
    }
}

#[test]
fn a_failed_commit_is_a_persistence_failure_and_no_mail_is_sent() {
    let subscription = in_phase(&[DONE, DONE, DONE, FAILED]);
    assert_eq!(subscription.phase(), SubscribePhase::Failed(SubscribeError::PersistenceFailure));
    assert!(matches!(
        subscription.action(),
        SubscribeAction::Respond(Err(SubscribeError::PersistenceFailure))
    ));
}

#[test]
fn a_refused_mail_is_a_notification_failure() {
    for event in [SubscribeEvent::Mail(Some(500)), SubscribeEvent::Mail(None), SubscribeEvent::Mail(Some(302)), FAILED] {
        let subscription = in_phase(&[DONE, DONE, DONE, DONE, event]);
        assert_eq!(subscription.phase(), SubscribePhase::Failed(SubscribeError::NotificationFailure));
    }
}

#[test]
fn every_outcome_of_subscribing_has_its_answer() {
    assert_eq!(subscribe_response(Ok(())), Response::Success);
    assert_eq!(subscribe_response(Err(SubscribeError::ValidationFailed)), Response::BadRequest);
    assert_eq!(subscribe_response(Err(SubscribeError::DuplicateEmail)), Response::Conflict);
    assert_eq!(subscribe_response(Err(SubscribeError::PersistenceFailure)), Response::InternalServerError);
    assert_eq!(subscribe_response(Err(SubscribeError::NotificationFailure)), Response::InternalServerError);
    assert_eq!(Response::Success.status_code(), 200);
    assert_eq!(Response::BadRequest.status_code(), 400);
    assert_eq!(Response::Conflict.status_code(), 409);
    assert_eq!(Response::InternalServerError.status_code(), 500);
}

#[test]
fn the_unique_violation_is_known_by_its_sqlstate() {
    assert_eq!(StoreOutcome::from_sqlstate(Some("23505")), StoreOutcome::UniqueViolation);
    assert_eq!(StoreOutcome::from_sqlstate(Some("23503")), StoreOutcome::Failed);
    assert_eq!(StoreOutcome::from_sqlstate(Some("")), StoreOutcome::Failed);
    assert_eq!(StoreOutcome::from_sqlstate(None), StoreOutcome::Failed);
}
