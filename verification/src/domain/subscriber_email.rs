use validator::validate_email;
use vstd::prelude::*;
use vstd::string::*;

verus! {

/// Whether `s` is an e-mail address by the grammar of the HTML living
/// standard: a local part of at most 64 characters, an `@`, and a domain of at
/// most 255 that is a host name (internationalised names included) or an IP
/// address in brackets.
pub uninterp spec fn email_grammar_accepts(s: Seq<char>) -> bool;

/// What `Email::parse` reports for a rejected `s`.
pub open spec fn invalid_email_message(s: Seq<char>) -> Seq<char> {
    s + " is not a valid email"@
}

/// An e-mail address: a text that passed `Email::parse` and cannot be changed
/// afterwards.
#[derive(Debug, Hash)]
pub struct Email(String);

impl View for Email {
    type V = Seq<char>;

    closed spec fn view(&self) -> Seq<char> {
        self.0@
    }
}

/// `validator::validate_email`: whether `s` is an e-mail address by the
/// grammar above.
#[verifier::external_body]
fn is_email(s: &str) -> (r: bool)
    ensures
        r == email_grammar_accepts(s@),
{
    validate_email(s)
}

impl Email {
    #[verifier::type_invariant]
    spec fn is_valid(self) -> bool {
        email_grammar_accepts(self.0@)
    }

    /// Accepts `s` as an address if the grammar does, and says so if it does not.
    pub fn parse(s: String) -> (r: Result<Email, String>)
        ensures
            match r {
                Ok(email) => email_grammar_accepts(s@) && email@ == s@,
                Err(message) => !email_grammar_accepts(s@) && message@ == invalid_email_message(
                    s@,
                ),
            },
    {
        if !is_email(s.as_str()) {
            return Err(s.concat(" is not a valid email"));
        }
        Ok(Self(s))
    }

    /// The address as text. Every address is valid.
    pub fn as_str(&self) -> (s: &str)
        ensures
            s@ == self@,
            email_grammar_accepts(self@),
    {
        proof {
            use_type_invariant(self);
        }
        self.0.as_str()
    }
}

impl AsRef<str> for Email {
    fn as_ref(&self) -> (s: &str)
        ensures
            s@ == self@,
            email_grammar_accepts(self@),
    {
        self.as_str()
    }
}

impl PartialEq for Email {
    fn eq(&self, other: &Self) -> (r: bool) {
        self.0 == other.0
    }
}

impl vstd::std_specs::cmp::PartialEqSpecImpl for Email {
    open spec fn obeys_eq_spec() -> bool {
        true
    }

    open spec fn eq_spec(&self, other: &Self) -> bool {
        self@ == other@
    }
}

impl Eq for Email {

}

impl Clone for Email {
    fn clone(&self) -> (r: Self)
        ensures
            r@ == self@,
    {
        proof {
            use_type_invariant(self);
        }
        Self(self.0.clone())
    }
}

} // verus!
