//! The validated values a subscription is made of.

pub mod subscriber;
pub mod subscriber_email;
pub mod subscriber_name;

pub use subscriber::Subscriber;
pub use subscriber_email::Email;
pub use subscriber_name::SubscriberName;
