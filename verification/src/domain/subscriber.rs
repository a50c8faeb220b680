use crate::domain::subscriber_email::{email_grammar_accepts, Email};
use crate::domain::subscriber_name::{valid_name, SubscriberName};
use vstd::prelude::*;

verus! {

/// Someone who asked to be on the list, known by a valid name and a valid
/// address.
#[derive(Debug)]
pub struct Subscriber {
    pub name: SubscriberName,
    pub email: Email,
}

/// A subscriber as two texts.
pub struct SubscriberView {
    pub name: Seq<char>,
    pub email: Seq<char>,
}

impl SubscriberView {
    /// Whether both texts are valid.
    pub open spec fn is_valid(self) -> bool {
        valid_name(self.name) && email_grammar_accepts(self.email)
    }
}

impl View for Subscriber {
    type V = SubscriberView;

    open spec fn view(&self) -> SubscriberView {
        SubscriberView { name: self.name@, email: self.email@ }
    }
}

impl Clone for Subscriber {
    fn clone(&self) -> (r: Self)
        ensures
            r@ == self@,
    {
        Subscriber { name: self.name.clone(), email: self.email.clone() }
    }
}

} // verus!
