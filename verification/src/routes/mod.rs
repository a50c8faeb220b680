//! The services. Subscribing, confirming and delivering are each a machine:
//! it names the next thing to ask of the store or of the e-mail service, and
//! takes the answer.

pub mod delivery;
pub mod login;
pub mod subscriptions;
pub mod subscriptions_confirm;
