use stoic_newsletter::domain::{Email, SubscriberName};
use stoic_newsletter::store::{Status, Store, StoreOutcome, SubscriberRow, Tables, TokenRow, UserRow};

fn subscriber(id: u128, name: &str, email: &str) -> SubscriberRow {
    SubscriberRow {
        id,
        email: Email::parse(String::from(email)).unwrap(),
        name: SubscriberName::parse(String::from(name)).unwrap(),
        subscribed_at: 1_700_000_000_000_000,
        status: Status::PendingConfirmation,
    }
}

fn token(token: &str, subscriber_id: u128) -> TokenRow {
    TokenRow { subscription_token: String::from(token), subscriber_id }
}

fn user(id: u128, username: &str) -> UserRow {
    UserRow { id, username: String::from(username), password_hash: String::from("$argon2id$") }
}

#[test]
fn a_status_is_written_as_the_store_writes_it() {
    assert_eq!(Status::PendingConfirmation.as_str(), "pending_confirmation");
    assert_eq!(Status::Confirmed.as_str(), "confirmed");
}

#[test]
fn new_tables_are_empty() {
    let tables = Tables::new();
    assert_eq!(tables.subscriptions().len(), 0);
    assert_eq!(tables.subscription_tokens().len(), 0);
    assert_eq!(tables.users().len(), 0);
    assert!(!tables.has_subscriber(0));
    assert!(!tables.has_email("a@b.com"));
    assert!(!tables.has_token(""));
    assert!(!tables.has_user(""));
    assert_eq!(tables.owner_of(""), None);
    assert!(tables.credential_of("admin").is_none());
    assert_eq!(tables.confirmed_subscribers().len(), 0);
}

#[test]
fn identities_and_addresses_are_unique() {
    let mut tables = Tables::new();
    assert_eq!(tables.insert_subscriber(subscriber(1, "a", "a@example.com")), StoreOutcome::Done);
    assert_eq!(tables.insert_subscriber(subscriber(1, "b", "b@example.com")), StoreOutcome::UniqueViolation);
    assert_eq!(tables.insert_subscriber(subscriber(2, "b", "a@example.com")), StoreOutcome::UniqueViolation);
    assert_eq!(tables.insert_subscriber(subscriber(2, "a", "b@example.com")), StoreOutcome::Done);
    assert_eq!(tables.subscriptions().len(), 2);
    assert!(tables.has_subscriber(1));
    assert!(tables.has_subscriber(2));
    assert!(!tables.has_subscriber(3));
    assert!(tables.has_email("a@example.com"));
    assert!(!tables.has_email("A@example.com"));
}

#[test]
fn tokens_are_unique_and_bound_to_a_subscriber_that_exists() {
    let mut tables = Tables::new();
    assert_eq!(tables.insert_token(token("t1", 1)), StoreOutcome::Failed);
    assert_eq!(tables.insert_subscriber(subscriber(1, "a", "a@example.com")), StoreOutcome::Done);
    assert_eq!(tables.insert_token(token("t1", 1)), StoreOutcome::Done);
    assert_eq!(tables.insert_token(token("t1", 1)), StoreOutcome::UniqueViolation);
    assert_eq!(tables.insert_token(token("t2", 2)), StoreOutcome::Failed);
    assert_eq!(tables.subscription_tokens().len(), 1);
    assert!(tables.has_token("t1"));
    assert!(!tables.has_token("t2"));
    assert_eq!(tables.owner_of("t1"), Some(1));
    assert_eq!(tables.owner_of("t2"), None);
    assert_eq!(tables.owner_of("T1"), None);
}

#[test]
fn user_names_are_unique() {
    let mut tables = Tables::new();
    assert_eq!(tables.insert_user(user(1, "admin")), StoreOutcome::Done);
    assert_eq!(tables.insert_user(user(2, "admin")), StoreOutcome::UniqueViolation);
    assert_eq!(tables.insert_user(user(2, "editor")), StoreOutcome::Done);
    assert_eq!(tables.users().len(), 2);
    assert!(tables.has_user("admin"));
    assert!(!tables.has_user("Admin"));
    let credential = tables.credential_of("editor").unwrap();
    assert_eq!(credential.id, 2);
    assert_eq!(credential.password_hash, "$argon2id$");
    assert!(tables.credential_of("nobody").is_none());
}

#[test]
fn confirming_changes_the_status_and_nothing_else() {
    let mut tables = Tables::new();
    assert_eq!(tables.insert_subscriber(subscriber(1, "a", "a@example.com")), StoreOutcome::Done);
    assert_eq!(tables.insert_subscriber(subscriber(2, "b", "b@example.com")), StoreOutcome::Done);
    assert_eq!(tables.insert_subscriber(subscriber(3, "c", "c@example.com")), StoreOutcome::Done);
    tables.confirm_subscriber(2);
    tables.confirm_subscriber(9);
    let rows = tables.subscriptions();
    assert_eq!(rows.len(), 3);
    assert_eq!(rows[0].status, Status::PendingConfirmation);
    assert_eq!(rows[1].status, Status::Confirmed);
    assert_eq!(rows[2].status, Status::PendingConfirmation);
    assert_eq!(rows[1].id, 2);
    assert_eq!(rows[1].name.as_ref(), "b");
    assert_eq!(rows[1].email.as_ref(), "b@example.com");
    assert_eq!(rows[1].subscribed_at, 1_700_000_000_000_000);
    let confirmed = tables.confirmed_subscribers();
    assert_eq!(confirmed.len(), 1);
    assert_eq!(confirmed[0].name.as_ref(), "b");
    assert_eq!(confirmed[0].email.as_ref(), "b@example.com");
    tables.confirm_subscriber(3);
    tables.confirm_subscriber(2);
    let confirmed = tables.confirmed_subscribers();
    assert_eq!(confirmed.len(), 2);
    assert_eq!(confirmed[0].email.as_ref(), "b@example.com");
    assert_eq!(confirmed[1].email.as_ref(), "c@example.com");
}

#[test]
fn a_copy_of_the_tables_holds_the_same_rows() {
    let mut tables = Tables::new();
    assert_eq!(tables.insert_subscriber(subscriber(1, "a", "a@example.com")), StoreOutcome::Done);
    assert_eq!(tables.insert_token(token("t1", 1)), StoreOutcome::Done);
    assert_eq!(tables.insert_user(user(1, "admin")), StoreOutcome::Done);
    let copy = tables.duplicate();
    assert_eq!(copy.subscriptions().len(), 1);
    assert_eq!(copy.subscriptions()[0].email.as_ref(), "a@example.com");
    assert_eq!(copy.subscription_tokens()[0].subscription_token, "t1");
    assert_eq!(copy.users()[0].username, "admin");
    tables.confirm_subscriber(1);
    assert_eq!(copy.subscriptions()[0].status, Status::PendingConfirmation);
}

#[test]
fn what_a_transaction_did_is_seen_once_it_is_committed() {
    let mut store = Store::new();
    assert!(!store.in_transaction());
    assert_eq!(store.begin(), StoreOutcome::Done);
    assert!(store.in_transaction());
    assert_eq!(store.insert_subscriber(subscriber(1, "a", "a@example.com")), StoreOutcome::Done);
    assert_eq!(store.insert_token(token("t1", 1)), StoreOutcome::Done);
    assert_eq!(store.tables().subscriptions().len(), 0);
    assert_eq!(store.owner_of("t1"), None);
    assert_eq!(store.commit(), StoreOutcome::Done);
    assert!(!store.in_transaction());
    assert_eq!(store.tables().subscriptions().len(), 1);
    assert_eq!(store.tables().subscription_tokens().len(), 1);
    assert_eq!(store.owner_of("t1"), Some(1));
}

#[test]
fn what_a_transaction_did_is_gone_once_it_is_rolled_back() {
    let mut store = Store::new();
    assert_eq!(store.begin(), StoreOutcome::Done);
    assert_eq!(store.insert_subscriber(subscriber(1, "a", "a@example.com")), StoreOutcome::Done);
    assert_eq!(store.insert_token(token("t1", 1)), StoreOutcome::Done);
    assert_eq!(store.rollback(), StoreOutcome::Done);
    assert!(!store.in_transaction());
    assert_eq!(store.tables().subscriptions().len(), 0);
    assert_eq!(store.tables().subscription_tokens().len(), 0);
    assert_eq!(store.rollback(), StoreOutcome::Done);
    assert_eq!(store.begin(), StoreOutcome::Done);
    assert_eq!(store.insert_subscriber(subscriber(1, "a", "a@example.com")), StoreOutcome::Done);
    assert_eq!(store.commit(), StoreOutcome::Done);
    assert_eq!(store.tables().subscriptions().len(), 1);
}

#[test]
fn statements_of_a_transaction_fail_where_none_is_open() {
    let mut store = Store::new();
    assert_eq!(store.insert_subscriber(subscriber(1, "a", "a@example.com")), StoreOutcome::Failed);
    assert_eq!(store.insert_token(token("t1", 1)), StoreOutcome::Failed);
    assert_eq!(store.commit(), StoreOutcome::Failed);
    assert_eq!(store.begin(), StoreOutcome::Done);
    assert_eq!(store.begin(), StoreOutcome::Failed);
    assert_eq!(store.tables().subscriptions().len(), 0);
}

#[test]
fn the_store_confirms_and_lists_in_its_committed_tables() {
    let mut store = Store::new();
    assert_eq!(store.insert_user(user(1, "admin")), StoreOutcome::Done);
    assert_eq!(store.insert_user(user(2, "admin")), StoreOutcome::UniqueViolation);
    assert_eq!(store.credential_of("admin").unwrap().id, 1);
    assert_eq!(store.begin(), StoreOutcome::Done);
    assert_eq!(store.insert_subscriber(subscriber(1, "a", "a@example.com")), StoreOutcome::Done);
    assert_eq!(store.commit(), StoreOutcome::Done);
    assert_eq!(store.confirmed_subscribers().len(), 0);
    assert_eq!(store.confirm_subscriber(1), StoreOutcome::Done);
    assert_eq!(store.confirmed_subscribers().len(), 1);
    assert_eq!(store.confirmed_subscribers()[0].email.as_ref(), "a@example.com");
    assert_eq!(store.tables().subscriptions()[0].status.as_str(), "confirmed");
}
