//! What holds of the services, whatever the store holds and whatever is
//! asked of them.

use crate::auth::{
    argon2_accepts, basic_credentials, credentials_check, AuthError, CredentialsView,
    StoredCredentialView,
};
use crate::domain::subscriber::SubscriberView;
use crate::email_client::{outcome_of, request_for, EmailClientView, EmailRequestView};
use crate::http::{status_of, Response};
use crate::routes::delivery::{
    deliver_response_of, DeliverError, DeliveryDataView, DeliveryPhase, DeliveryView,
};
use crate::routes::subscriptions::{
    confirmation_email_of, SubscribeError, SubscribeFormDataView, SubscriptionView,
};
use crate::routes::subscriptions_confirm::ConfirmError;
use crate::simulation::{reply_in, MailServerView, SimulationView};
use crate::store::{lemma_confirmed_among_len, Status, StoreView, TablesView};
use vstd::utf8::encode_utf8;
use vstd::prelude::*;

verus! {

/// The tables once the two rows of `subscription` are in them.
pub open spec fn with_subscription(tables: TablesView, subscription: SubscriptionView) -> TablesView {
    TablesView {
        subscriptions: tables.subscriptions.push(subscription.subscriber_row()),
        subscription_tokens: tables.subscription_tokens.push(subscription.token_row()),
        users: tables.users,
    }
}

/// Subscribing, in full. A form that is not valid is refused and nothing
/// happens. Where the address or the identity is taken the outcome is
/// `DuplicateEmail`, where the token is taken it is `PersistenceFailure`, and
/// in both cases nothing is stored and nothing is mailed. Otherwise the
/// subscriber and the token are stored together, the confirmation mail goes to
/// the e-mail service, and the outcome is `Ok`, or `NotificationFailure` where
/// the service does not accept the mail: the two rows stay.
pub proof fn lemma_subscribe(
    app: SimulationView,
    form: SubscribeFormDataView,
    id: u128,
    subscribed_at: i64,
    token: Seq<char>,
)
    requires
        app.store.pending is None,
    ensures
        ({
            let tables = app.store.committed;
            let subscription = SubscriptionView::started(
                form,
                app.base_url,
                id,
                subscribed_at,
                token,
            );
            let (after, outcome) = app.subscribe(form, id, subscribed_at, token);
            if !form.is_valid() {
                after == app && outcome == Err::<(), SubscribeError>(
                    SubscribeError::ValidationFailed,
                )
            } else if tables.has_subscriber(id) || tables.has_email(form.email) {
                after == app && outcome == Err::<(), SubscribeError>(SubscribeError::DuplicateEmail)
            } else if tables.has_token(token) {
                after == app && outcome == Err::<(), SubscribeError>(
                    SubscribeError::PersistenceFailure,
                )
            } else {
                let email = confirmation_email_of(form.email, app.base_url, token);
                let request = request_for(app.client, email.recipient, email.subject, email.body);
                &&& after == (SimulationView {
                    store: StoreView {
                        committed: with_subscription(tables, subscription),
                        pending: None,
                    },
                    mail: app.mail.with(request),
                    ..app
                })
                &&& outcome == if outcome_of(app.mail.next_reply()) is Ok {
                    Ok::<(), SubscribeError>(())
                } else {
                    Err::<(), SubscribeError>(SubscribeError::NotificationFailure)
                }
            }
        }),
{
    reveal_with_fuel(SimulationView::run_subscription, 6);
    let tables = app.store.committed;
    let subscription = SubscriptionView::started(form, app.base_url, id, subscribed_at, token);
    let (after, outcome) = app.subscribe(form, id, subscribed_at, token);
    if !form.is_valid() {
    } else if tables.has_subscriber(id) || tables.has_email(form.email) {
        assert(after =~~= app);
    } else if tables.has_token(token) {
        assert(after =~~= app);
    } else {
        let row = subscription.subscriber_row();
        let with_subscriber = tables.insert_subscriber(row).0;
        assert(with_subscriber.subscriptions[tables.subscriptions.len() as int].id == id);
        assert(with_subscriber.has_subscriber(id));
        assert(!with_subscriber.has_token(token));
        let email = confirmation_email_of(form.email, app.base_url, token);
        let request = request_for(app.client, email.recipient, email.subject, email.body);
        assert(after =~~= (SimulationView {
            store: StoreView { committed: with_subscription(tables, subscription), pending: None },
            mail: app.mail.with(request),
            ..app
        }));
    }
}

/// After a subscription with a valid form, an address that is not taken and
/// an identity and a token that are fresh, the store holds exactly one
/// subscriber with that address, who is pending, and exactly one token bound
/// to that subscriber: the one that was drawn. This holds whether or not the
/// confirmation mail went out.
pub proof fn lemma_subscribe_stores_one_pending_subscriber(
    app: SimulationView,
    form: SubscribeFormDataView,
    id: u128,
    subscribed_at: i64,
    token: Seq<char>,
)
    requires
        app.store.pending is None,
        app.store.committed.constraints_hold(),
        form.is_valid(),
        !app.store.committed.has_email(form.email),
        !app.store.committed.has_subscriber(id),
        !app.store.committed.has_token(token),
    ensures
        ({
            let (after, outcome) = app.subscribe(form, id, subscribed_at, token);
            let tables = after.store.committed;
            let row = app.store.committed.subscriptions.len() as int;
            let binding = app.store.committed.subscription_tokens.len() as int;
            &&& outcome is Ok || outcome == Err::<(), SubscribeError>(
                SubscribeError::NotificationFailure,
            )
            &&& after.store.pending is None
            &&& tables.constraints_hold()
            &&& tables.subscriptions.len() == row + 1
            &&& tables.subscriptions[row].email == form.email
            &&& tables.subscriptions[row].name == form.name
            &&& tables.subscriptions[row].id == id
            &&& tables.subscriptions[row].status == Status::PendingConfirmation
            &&& forall|i: int|
                0 <= i < tables.subscriptions.len() && (#[trigger] tables.subscriptions[i]).email
                    == form.email ==> i == row
            &&& tables.subscription_tokens.len() == binding + 1
            &&& tables.subscription_tokens[binding].subscription_token == token
            &&& tables.subscription_tokens[binding].subscriber_id == id
            &&& forall|k: int|
                0 <= k < tables.subscription_tokens.len() && (
                #[trigger] tables.subscription_tokens[k]).subscriber_id == id ==> k == binding
        }),
{
    lemma_subscribe(app, form, id, subscribed_at, token);
    let before = app.store.committed;
    let subscription = SubscriptionView::started(form, app.base_url, id, subscribed_at, token);
    let with_subscriber = before.insert_subscriber(subscription.subscriber_row()).0;
    before.lemma_insert_subscriber_keeps_constraints(subscription.subscriber_row());
    assert(with_subscriber.subscriptions[before.subscriptions.len() as int].id == id);
    with_subscriber.lemma_insert_token_keeps_constraints(subscription.token_row());
    let tables = app.subscribe(form, id, subscribed_at, token).0.store.committed;
    assert(tables =~~= with_subscriber.insert_token(subscription.token_row()).0);
    assert forall|k: int|
        0 <= k < tables.subscription_tokens.len() && (
        #[trigger] tables.subscription_tokens[k]).subscriber_id == id implies k
        == before.subscription_tokens.len() by {
        if k < before.subscription_tokens.len() {
            assert(before.has_subscriber(before.subscription_tokens[k].subscriber_id));
        }
    }
}

/// Subscribing with an address that a subscriber already has fails with
/// `DuplicateEmail` and changes nothing: no row is added and no mail is sent.
pub proof fn lemma_subscribe_refuses_taken_address(
    app: SimulationView,
    form: SubscribeFormDataView,
    id: u128,
    subscribed_at: i64,
    token: Seq<char>,
)
    requires
        app.store.pending is None,
        form.is_valid(),
        app.store.committed.has_email(form.email),
    ensures
        app.subscribe(form, id, subscribed_at, token) == (
            app,
            Err::<(), SubscribeError>(SubscribeError::DuplicateEmail),
        ),
{
    lemma_subscribe(app, form, id, subscribed_at, token);
}

/// Confirming, in full. A token that is bound to no subscriber is refused and
/// nothing changes; otherwise the status of its subscriber is set to
/// confirmed, whatever it was, and nothing else changes.
pub proof fn lemma_confirm(app: SimulationView, token: Seq<char>)
    ensures
        ({
            let (after, outcome) = app.confirm(token);
            match app.store.committed.owner_of(token) {
                None => after == app && outcome == Err::<(), ConfirmError>(
                    ConfirmError::UnknownToken,
                ),
                Some(id) => {
                    &&& after == (SimulationView {
                        store: StoreView {
                            committed: app.store.committed.confirm(id),
                            ..app.store
                        },
                        ..app
                    })
                    &&& outcome is Ok
                },
            }
        }),
{
    reveal_with_fuel(SimulationView::run_confirmation, 3);
}

/// Confirming with a token that the store does not hold fails with
/// `UnknownToken` and changes nothing.
pub proof fn lemma_confirm_refuses_unknown_token(app: SimulationView, token: Seq<char>)
    requires
        !app.store.committed.has_token(token),
    ensures
        app.confirm(token) == (app, Err::<(), ConfirmError>(ConfirmError::UnknownToken)),
{
    lemma_confirm(app, token);
}

/// Confirming twice with a token that the store holds succeeds both times:
/// the subscriber is confirmed after the first, and the second changes
/// nothing.
pub proof fn lemma_confirm_is_idempotent(app: SimulationView, token: Seq<char>)
    requires
        app.store.committed.constraints_hold(),
        app.store.committed.has_token(token),
    ensures
        ({
            let id = app.store.committed.owner_of(token)->Some_0;
            let (once, first) = app.confirm(token);
            let (twice, second) = once.confirm(token);
            &&& first is Ok
            &&& second is Ok
            &&& once.store.committed.status_of(id) == Some(Status::Confirmed)
            &&& twice == once
        }),
{
    let tables = app.store.committed;
    let id = tables.owner_of(token)->Some_0;
    let (once, first) = app.confirm(token);
    lemma_confirm(app, token);
    lemma_confirm(once, token);
    assert(once.store.committed.owner_of(token) == Some(id));
    tables.lemma_confirm_keeps_constraints(id);
    let binding = tables.token_position(token);
    assert(tables.has_subscriber(tables.subscription_tokens[binding].subscriber_id));
    let row = choose|i: int|
        0 <= i < tables.subscriptions.len() && (#[trigger] tables.subscriptions[i]).id == id;
    tables.confirm(id).lemma_status_of(id, row);
    assert(tables.confirm(id).confirm(id) =~~= tables.confirm(id));
    assert(once.confirm(token).0 =~~= once);
}

/// The call that delivers `data` to `recipient`.
pub open spec fn delivery_request(
    client: EmailClientView,
    data: DeliveryDataView,
    recipient: SubscriberView,
) -> EmailRequestView {
    request_for(client, recipient.email, data.subject, data.content)
}

/// The calls that deliver `data` to the first `count` of `recipients`, in
/// their order.
pub open spec fn delivery_requests(
    client: EmailClientView,
    data: DeliveryDataView,
    recipients: Seq<SubscriberView>,
    count: int,
) -> Seq<EmailRequestView> {
    Seq::new(count as nat, |i: int| delivery_request(client, data, recipients[i]))
}

/// The position of the first send that the e-mail service refuses, among the
/// sends at positions `from` to `count`, where the send at position 0 is the
/// call that comes after `calls` others; `count` where it refuses none.
pub open spec fn first_refusal(replies: Seq<Option<u16>>, calls: int, from: int, count: int) -> int
    decreases count - from,
{
    if from >= count {
        count
    } else if outcome_of(reply_in(replies, calls + from)) is Err {
        from
    } else {
        first_refusal(replies, calls, from + 1, count)
    }
}

/// `first_refusal` is the least position whose send is refused.
pub proof fn lemma_first_refusal(replies: Seq<Option<u16>>, calls: int, from: int, count: int)
    requires
        0 <= from <= count,
    ensures
        from <= first_refusal(replies, calls, from, count) <= count,
        forall|i: int|
            from <= i < first_refusal(replies, calls, from, count) ==> outcome_of(
                #[trigger] reply_in(replies, calls + i),
            ) is Ok,
        first_refusal(replies, calls, from, count) < count ==> outcome_of(
            reply_in(replies, calls + first_refusal(replies, calls, from, count)),
        ) is Err,
    decreases count - from,
{
    if from < count && outcome_of(reply_in(replies, calls + from)) is Ok {
        lemma_first_refusal(replies, calls, from + 1, count);
    }
}

/// The number of sends that take place for `count` recipients: all of them,
/// or those up to and with the first that is refused.
pub open spec fn sends_made(mail: MailServerView, count: int) -> int {
    let stop = first_refusal(mail.replies, mail.received.len() as int, 0, count);
    if stop < count {
        stop + 1
    } else {
        count
    }
}

/// A delivery that is sending, run to its end: the sends go on, in the order
/// of the recipients, until one is refused.
proof fn lemma_sending(
    app: SimulationView,
    delivery: DeliveryView,
    position: usize,
    calls: int,
    earlier: Seq<EmailRequestView>,
)
    requires
        delivery.phase == DeliveryPhase::Sending(position),
        position < delivery.recipients.len() <= usize::MAX,
        earlier.len() == calls,
        app.mail.received == earlier + delivery_requests(
            app.client,
            delivery.data,
            delivery.recipients,
            position as int,
        ),
    ensures
        ({
            let count = delivery.recipients.len() as int;
            let stop = first_refusal(app.mail.replies, calls, position as int, count);
            let made = if stop < count {
                stop + 1
            } else {
                count
            };
            app.run_delivery(delivery) == (
                SimulationView {
                    mail: MailServerView {
                        received: earlier + delivery_requests(
                            app.client,
                            delivery.data,
                            delivery.recipients,
                            made,
                        ),
                        ..app.mail
                    },
                    ..app
                },
                if stop < count {
                    Err::<(), DeliverError>(DeliverError::DeliveryFailure)
                } else {
                    Ok::<(), DeliverError>(())
                },
            )
        }),
    decreases delivery.recipients.len() - position,
{
    reveal_with_fuel(SimulationView::run_delivery, 3);
    reveal_with_fuel(first_refusal, 3);
    let count = delivery.recipients.len() as int;
    let stop = first_refusal(app.mail.replies, calls, position as int, count);
    let request = delivery_request(app.client, delivery.data, delivery.recipients[position as int]);
    let (sent, reply) = app.send(request);
    assert(reply == reply_in(app.mail.replies, calls + position));
    assert(sent.mail.received =~= earlier + delivery_requests(
        app.client,
        delivery.data,
        delivery.recipients,
        position + 1,
    ));
    let next = delivery.after(crate::routes::delivery::DeliveryEventView::Mail(reply));
    assert(app.run_delivery(delivery) == sent.run_delivery(next));
    if outcome_of(reply) is Err {
        assert(stop == position);
        assert(sent =~~= (SimulationView {
            mail: MailServerView {
                received: earlier + delivery_requests(
                    app.client,
                    delivery.data,
                    delivery.recipients,
                    position + 1,
                ),
                ..app.mail
            },
            ..app
        }));
    } else if position + 1 < count {
        assert(first_refusal(sent.mail.replies, calls, position + 1, count) == stop);
        lemma_sending(sent, next, (position + 1) as usize, calls, earlier);
    } else {
        assert(stop == count);
        assert(sent =~~= (SimulationView {
            mail: MailServerView {
                received: earlier + delivery_requests(
                    app.client,
                    delivery.data,
                    delivery.recipients,
                    count,
                ),
                ..app.mail
            },
            ..app
        }));
    }
}

/// Delivering, in full. A caller whose header carries no credentials, or
/// whose credentials the store does not bear out, is refused for that
/// reason and nothing happens. Otherwise the message is sent to the
/// confirmed subscribers in the order of the table, one call each, until the
/// e-mail service refuses one: that send is the last, and the outcome is
/// `DeliveryFailure`. Where none is refused the outcome is `Ok`. The store
/// is not changed.
pub proof fn lemma_deliver(
    app: SimulationView,
    data: DeliveryDataView,
    authorization: Option<Seq<u8>>,
)
    requires
        app.store.committed.subscriptions.len() <= usize::MAX,
    ensures
        ({
            let (after, outcome) = app.deliver(data, authorization);
            let tables = app.store.committed;
            match basic_credentials(authorization) {
                Err(error) => after == app && outcome == Err::<(), DeliverError>(
                    DeliverError::Unauthorized(error),
                ),
                Ok(credentials) => match credentials_check(
                    credentials,
                    tables.credential_of(credentials.username),
                ) {
                    Err(error) => after == app && outcome == Err::<(), DeliverError>(
                        DeliverError::Unauthorized(error),
                    ),
                    Ok(_) => {
                        let recipients = tables.confirmed_subscribers();
                        let made = sends_made(app.mail, recipients.len() as int);
                        &&& after == (SimulationView {
                            mail: MailServerView {
                                received: app.mail.received + delivery_requests(
                                    app.client,
                                    data,
                                    recipients,
                                    made,
                                ),
                                ..app.mail
                            },
                            ..app
                        })
                        &&& outcome == if first_refusal(
                            app.mail.replies,
                            app.mail.received.len() as int,
                            0,
                            recipients.len() as int,
                        ) == recipients.len() {
                            Ok::<(), DeliverError>(())
                        } else {
                            Err::<(), DeliverError>(DeliverError::DeliveryFailure)
                        }
                    },
                },
            }
        }),
{
    reveal_with_fuel(SimulationView::run_delivery, 4);
    let tables = app.store.committed;
    let start = DeliveryView::started(data, authorization);
    match basic_credentials(authorization) {
        Err(_) => {},
        Ok(credentials) => {
            match credentials_check(credentials, tables.credential_of(credentials.username)) {
                Err(_) => {},
                Ok(_) => {
                    let recipients = tables.confirmed_subscribers();
                    lemma_confirmed_among_len(tables.subscriptions);
                    let loaded = DeliveryView {
                        recipients,
                        phase: if recipients.len() == 0 {
                            DeliveryPhase::Succeeded
                        } else {
                            DeliveryPhase::Sending(0)
                        },
                        ..start
                    };
                    assert(app.deliver(data, authorization) == app.run_delivery(loaded));
                    let calls = app.mail.received.len() as int;
                    lemma_first_refusal(app.mail.replies, calls, 0, recipients.len() as int);
                    if recipients.len() == 0 {
                        assert(app =~~= (SimulationView {
                            mail: MailServerView {
                                received: app.mail.received + delivery_requests(
                                    app.client,
                                    data,
                                    recipients,
                                    0,
                                ),
                                ..app.mail
                            },
                            ..app
                        }));
                    } else {
                        assert(app.mail.received =~= app.mail.received + delivery_requests(
                            app.client,
                            data,
                            recipients,
                            0,
                        ));
                        lemma_sending(app, loaded, 0, calls, app.mail.received);
                    }
                },
            }
        },
    }
}

/// A caller who names a user of the store but gives a password that is not
/// the user's is refused with `InvalidCredentials`, and nothing happens. The
/// answer is a 401 with the challenge for the realm `delivery`: the very
/// answer that a request without the header gets.
pub proof fn lemma_wrong_password_is_challenged(
    app: SimulationView,
    data: DeliveryDataView,
    authorization: Seq<u8>,
    credentials: CredentialsView,
    stored: StoredCredentialView,
)
    requires
        app.store.committed.subscriptions.len() <= usize::MAX,
        basic_credentials(Some(authorization)) == Ok::<CredentialsView, AuthError>(credentials),
        app.store.committed.credential_of(credentials.username) == Some(stored),
        !argon2_accepts(encode_utf8(credentials.password), stored.password_hash),
    ensures
        app.deliver(data, Some(authorization)) == (
            app,
            Err::<(), DeliverError>(DeliverError::Unauthorized(AuthError::InvalidCredentials)),
        ),
        app.deliver(data, None) == (
            app,
            Err::<(), DeliverError>(DeliverError::Unauthorized(AuthError::MissingCredentials)),
        ),
        deliver_response_of(app.deliver(data, Some(authorization)).1) == Response::Challenge,
        deliver_response_of(app.deliver(data, Some(authorization)).1) == deliver_response_of(
            app.deliver(data, None).1,
        ),
        status_of(Response::Challenge) == 401,
{
    lemma_deliver(app, data, Some(authorization));
    lemma_deliver(app, data, None);
}

/// Whatever the reason for which a caller was not authenticated, the answer
/// is the same.
pub proof fn lemma_unauthorized_is_uniform(first: AuthError, second: AuthError)
    ensures
        deliver_response_of(Err(DeliverError::Unauthorized(first))) == deliver_response_of(
            Err(DeliverError::Unauthorized(second)),
        ),
        deliver_response_of(Err(DeliverError::Unauthorized(first))) == Response::Challenge,
{
}

/// Whether `after` continues `before`: every subscriber of `before` is still
/// there, in place and unchanged but for a status that went from pending to
/// confirmed; every subscriber that came since is pending; every token of
/// `before` is still there, in place and bound as it was; and the users are
/// the same.
pub open spec fn continues(before: TablesView, after: TablesView) -> bool {
    &&& before.subscriptions.len() <= after.subscriptions.len()
    &&& forall|i: int|
        0 <= i < before.subscriptions.len() ==> {
            let old = #[trigger] before.subscriptions[i];
            let new = after.subscriptions[i];
            &&& new.id == old.id
            &&& new.email == old.email
            &&& new.name == old.name
            &&& new.subscribed_at == old.subscribed_at
            &&& new.status == old.status || (old.status == Status::PendingConfirmation
                && new.status == Status::Confirmed)
        }
    &&& forall|i: int|
        before.subscriptions.len() <= i < after.subscriptions.len() ==> (
        #[trigger] after.subscriptions[i]).status == Status::PendingConfirmation
    &&& before.subscription_tokens.is_prefix_of(after.subscription_tokens)
    &&& before.users == after.users
}

/// Whether every subscriber has exactly one token: no two tokens are bound to
/// one subscriber, and every subscriber has a token bound to it.
pub open spec fn one_token_each(tables: TablesView) -> bool {
    &&& forall|i: int, j: int|
        0 <= i < j < tables.subscription_tokens.len() ==> (
        #[trigger] tables.subscription_tokens[i]).subscriber_id != (
        #[trigger] tables.subscription_tokens[j]).subscriber_id
    &&& forall|i: int|
        0 <= i < tables.subscriptions.len() ==> exists|k: int|
            0 <= k < tables.subscription_tokens.len() && (
            #[trigger] tables.subscription_tokens[k]).subscriber_id == (
            #[trigger] tables.subscriptions[i]).id
}

/// Whatever is asked of it, subscribing leaves no transaction open, keeps the
/// constraints of the schema, continues the tables, and keeps every
/// subscriber with exactly one token: the subscriber and the token are stored
/// together or not at all.
pub proof fn lemma_subscribe_keeps_the_store_sound(
    app: SimulationView,
    form: SubscribeFormDataView,
    id: u128,
    subscribed_at: i64,
    token: Seq<char>,
)
    requires
        app.store.pending is None,
        app.store.committed.constraints_hold(),
    ensures
        ({
            let after = app.subscribe(form, id, subscribed_at, token).0;
            &&& after.store.pending is None
            &&& after.store.committed.constraints_hold()
            &&& continues(app.store.committed, after.store.committed)
            &&& one_token_each(app.store.committed) ==> one_token_each(after.store.committed)
        }),
{
    lemma_subscribe(app, form, id, subscribed_at, token);
    let before = app.store.committed;
    let after = app.subscribe(form, id, subscribed_at, token).0.store.committed;
    if after != before {
        lemma_subscribe_stores_one_pending_subscriber(app, form, id, subscribed_at, token);
        let binding = before.subscription_tokens.len() as int;
        if one_token_each(before) {
            assert forall|i: int| 0 <= i < after.subscriptions.len() implies exists|k: int|
                0 <= k < after.subscription_tokens.len() && (
                #[trigger] after.subscription_tokens[k]).subscriber_id == (
                #[trigger] after.subscriptions[i]).id by {
                if i < before.subscriptions.len() {
                    let k = choose|k: int|
                        0 <= k < before.subscription_tokens.len() && (
                        #[trigger] before.subscription_tokens[k]).subscriber_id
                            == before.subscriptions[i].id;
                    assert(after.subscription_tokens[k].subscriber_id == after.subscriptions[i].id);
                } else {
                    assert(after.subscription_tokens[binding].subscriber_id == id);
                }
            }
            assert forall|i: int, j: int| 0 <= i < j < after.subscription_tokens.len() implies (
            #[trigger] after.subscription_tokens[i]).subscriber_id != (
            #[trigger] after.subscription_tokens[j]).subscriber_id by {
                if j == binding {
                    assert(before.has_subscriber(before.subscription_tokens[i].subscriber_id));
                }
            }
        }
    }
}

/// Whatever is asked of it, confirming keeps the constraints of the schema,
/// continues the tables, and keeps every subscriber with exactly one token.
/// It adds and removes no row, and no status goes back to pending.
pub proof fn lemma_confirm_keeps_the_store_sound(app: SimulationView, token: Seq<char>)
    requires
        app.store.committed.constraints_hold(),
    ensures
        ({
            let after = app.confirm(token).0;
            &&& after.store.pending == app.store.pending
            &&& after.store.committed.constraints_hold()
            &&& continues(app.store.committed, after.store.committed)
            &&& after.store.committed.subscriptions.len() == app.store.committed.subscriptions.len()
            &&& after.store.committed.subscription_tokens == app.store.committed.subscription_tokens
            &&& one_token_each(app.store.committed) ==> one_token_each(after.store.committed)
        }),
{
    lemma_confirm(app, token);
    let before = app.store.committed;
    match before.owner_of(token) {
        None => {},
        Some(id) => {
            before.lemma_confirm_keeps_constraints(id);
            let after = before.confirm(id);
            if one_token_each(before) {
                assert forall|i: int| 0 <= i < after.subscriptions.len() implies exists|k: int|
                    0 <= k < after.subscription_tokens.len() && (
                    #[trigger] after.subscription_tokens[k]).subscriber_id == (
                    #[trigger] after.subscriptions[i]).id by {
                    let k = choose|k: int|
                        0 <= k < before.subscription_tokens.len() && (
                        #[trigger] before.subscription_tokens[k]).subscriber_id
                            == before.subscriptions[i].id;
                    assert(after.subscription_tokens[k].subscriber_id == after.subscriptions[i].id);
                }
            }
        },
    }
}

/// Delivering reads the store and never writes it.
pub proof fn lemma_deliver_leaves_the_store(
    app: SimulationView,
    data: DeliveryDataView,
    authorization: Option<Seq<u8>>,
)
    requires
        app.store.committed.subscriptions.len() <= usize::MAX,
    ensures
        app.deliver(data, authorization).0.store == app.store,
{
    lemma_deliver(app, data, authorization);
}

/// Where the e-mail service accepts every send, every confirmed subscriber
/// gets the message, one call each and in the order of the table, and the
/// outcome is `Ok`.
pub proof fn lemma_deliver_reaches_every_confirmed_subscriber(
    app: SimulationView,
    data: DeliveryDataView,
    authorization: Option<Seq<u8>>,
    credentials: CredentialsView,
)
    requires
        app.store.committed.subscriptions.len() <= usize::MAX,
        basic_credentials(authorization) == Ok::<CredentialsView, AuthError>(credentials),
        credentials_check(
            credentials,
            app.store.committed.credential_of(credentials.username),
        ) is Ok,
        forall|i: int|
            0 <= i < app.store.committed.confirmed_subscribers().len() ==> outcome_of(
                #[trigger] reply_in(app.mail.replies, app.mail.received.len() + i),
            ) is Ok,
    ensures
        ({
            let (after, outcome) = app.deliver(data, authorization);
            let recipients = app.store.committed.confirmed_subscribers();
            &&& outcome is Ok
            &&& after.mail.received == app.mail.received + delivery_requests(
                app.client,
                data,
                recipients,
                recipients.len() as int,
            )
            &&& after.mail.received.len() == app.mail.received.len() + recipients.len()
        }),
{
    lemma_deliver(app, data, authorization);
    let count = app.store.committed.confirmed_subscribers().len() as int;
    lemma_first_refusal(app.mail.replies, app.mail.received.len() as int, 0, count);
}

/// Where the e-mail service refuses the send to the confirmed subscriber at
/// `position` and accepted every send before it, that send is the last: the
/// subscribers after it get nothing, and the outcome is `DeliveryFailure`.
pub proof fn lemma_first_refused_send_is_the_last(
    app: SimulationView,
    data: DeliveryDataView,
    authorization: Option<Seq<u8>>,
    credentials: CredentialsView,
    position: int,
)
    requires
        app.store.committed.subscriptions.len() <= usize::MAX,
        basic_credentials(authorization) == Ok::<CredentialsView, AuthError>(credentials),
        credentials_check(
            credentials,
            app.store.committed.credential_of(credentials.username),
        ) is Ok,
        0 <= position < app.store.committed.confirmed_subscribers().len(),
        forall|i: int|
            0 <= i < position ==> outcome_of(
                #[trigger] reply_in(app.mail.replies, app.mail.received.len() + i),
            ) is Ok,
        outcome_of(reply_in(app.mail.replies, app.mail.received.len() + position)) is Err,
    ensures
        ({
            let (after, outcome) = app.deliver(data, authorization);
            let recipients = app.store.committed.confirmed_subscribers();
            &&& outcome == Err::<(), DeliverError>(DeliverError::DeliveryFailure)
            &&& after.mail.received == app.mail.received + delivery_requests(
                app.client,
                data,
                recipients,
                position + 1,
            )
            &&& after.mail.received.len() == app.mail.received.len() + position + 1
        }),
{
    lemma_deliver(app, data, authorization);
    let count = app.store.committed.confirmed_subscribers().len() as int;
    let calls = app.mail.received.len() as int;
    lemma_first_refusal(app.mail.replies, calls, 0, count);
    let stop = first_refusal(app.mail.replies, calls, 0, count);
    if stop < position {
        assert(outcome_of(reply_in(app.mail.replies, calls + stop)) is Ok);
    } else if stop > position {
        assert(outcome_of(reply_in(app.mail.replies, calls + position)) is Ok);
    }
}

/// Confirmations do not get in each other's way: one leaves the rows of
/// every other subscriber as they are, and two of them, in either order,
/// leave the same tables.
pub proof fn lemma_confirmations_commute(tables: TablesView, first: u128, second: u128)
    ensures
        tables.confirm(first).confirm(second) == tables.confirm(second).confirm(first),
        forall|i: int|
            0 <= i < tables.subscriptions.len() && (#[trigger] tables.subscriptions[i]).id
                != first ==> tables.confirm(first).subscriptions[i] == tables.subscriptions[i],
{
    assert(tables.confirm(first).confirm(second) =~~= tables.confirm(second).confirm(first));
}

} // verus!
