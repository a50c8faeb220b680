use crate::text::{blank, is_blank};
use unicode_segmentation::UnicodeSegmentation;
use vstd::prelude::*;
use vstd::string::*;

verus! {

/// The longest name that is accepted, in grapheme clusters.
pub const MAX_NAME_GRAPHEMES: usize = 256;

/// The number of extended grapheme clusters (user-perceived characters) that
/// `s` is made of, as the Unicode text segmentation rules count them.
pub uninterp spec fn grapheme_count(s: Seq<char>) -> nat;

/// The characters that no name may hold: `/ ( ) " < > \ { }`.
pub open spec fn is_forbidden(c: char) -> bool {
    c == '/' || c == '(' || c == ')' || c == '"' || c == '<' || c == '>' || c == '\\' || c == '{'
        || c == '}'
}

/// Whether `s` holds a forbidden character.
pub open spec fn has_forbidden(s: Seq<char>) -> bool {
    exists|i: int| 0 <= i < s.len() && is_forbidden(#[trigger] s[i])
}

/// The rule for names, given the number of grapheme clusters of `s`: the name
/// is not blank, has at most 256 grapheme clusters and holds no forbidden
/// character.
pub open spec fn acceptable_name(s: Seq<char>, graphemes: nat) -> bool {
    !is_blank(s) && graphemes <= MAX_NAME_GRAPHEMES && !has_forbidden(s)
}

/// Whether `s` is a valid subscriber name.
pub open spec fn valid_name(s: Seq<char>) -> bool {
    acceptable_name(s, grapheme_count(s))
}

/// What `SubscriberName::parse` reports for a rejected `s`.
pub open spec fn invalid_name_message(s: Seq<char>) -> Seq<char> {
    s + " is not a valid subscriber name"@
}

/// The name of a subscriber: a text that passed `SubscriberName::parse` and
/// cannot be changed afterwards.
#[derive(Debug, Hash)]
pub struct SubscriberName(String);

impl View for SubscriberName {
    type V = Seq<char>;

    closed spec fn view(&self) -> Seq<char> {
        self.0@
    }
}

/// `UnicodeSegmentation::graphemes` with extended clusters, counted: the
/// number of grapheme clusters of `s`.
#[verifier::external_body]
fn count_graphemes(s: &str) -> (n: usize)
    ensures
        n == grapheme_count(s@),
{
    s.graphemes(true).count()
}

/// Whether `c` is one of the forbidden characters.
pub fn forbidden(c: char) -> (r: bool)
    ensures
        r == is_forbidden(c),
{
    c == '/' || c == '(' || c == ')' || c == '"' || c == '<' || c == '>' || c == '\\' || c == '{'
        || c == '}'
}

/// Whether `s` holds a forbidden character.
pub fn holds_forbidden(s: &str) -> (r: bool)
    ensures
        r == has_forbidden(s@),
{
    broadcast use vstd::string::group_string_axioms;

    for c in it: s.chars()
        invariant
            it.seq() == s@,
            forall|i: int| 0 <= i < it.index() ==> !is_forbidden(#[trigger] s@[i]),
    {
        if forbidden(c) {
            return true;
        }
    }
    false
}

/// Decides whether `s` may be a name, given the number of its grapheme clusters.
pub fn name_is_acceptable(s: &str, graphemes: usize) -> (r: bool)
    ensures
        r == acceptable_name(s@, graphemes as nat),
{
    let is_empty = blank(s);
    let is_too_long = graphemes > MAX_NAME_GRAPHEMES;
    let contains_invalid_chars = holds_forbidden(s);
    !(is_empty || is_too_long || contains_invalid_chars)
}

impl SubscriberName {
    #[verifier::type_invariant]
    spec fn is_valid(self) -> bool {
        valid_name(self.0@)
    }

    /// Accepts `s` as a name if it is valid, and says so if it is not.
    pub fn parse(s: String) -> (r: Result<SubscriberName, String>)
        ensures
            match r {
                Ok(name) => valid_name(s@) && name@ == s@,
                Err(message) => !valid_name(s@) && message@ == invalid_name_message(s@),
            },
    {
        let graphemes = count_graphemes(s.as_str());
        if name_is_acceptable(s.as_str(), graphemes) {
            Ok(Self(s))
        } else {
            Err(s.concat(" is not a valid subscriber name"))
        }
    }

    /// The name as text. Every name is valid.
    pub fn as_str(&self) -> (s: &str)
        ensures
            s@ == self@,
            valid_name(self@),
    {
        proof {
            use_type_invariant(self);
        }
        self.0.as_str()
    }
}

impl AsRef<str> for SubscriberName {
    fn as_ref(&self) -> (s: &str)
        ensures
            s@ == self@,
            valid_name(self@),
    {
        self.as_str()
    }
}

impl PartialEq for SubscriberName {
    fn eq(&self, other: &Self) -> (r: bool) {
        self.0 == other.0
    }
}

impl vstd::std_specs::cmp::PartialEqSpecImpl for SubscriberName {
    open spec fn obeys_eq_spec() -> bool {
        true
    }

    open spec fn eq_spec(&self, other: &Self) -> bool {
        self@ == other@
    }
}

impl Eq for SubscriberName {

}

impl Clone for SubscriberName {
    fn clone(&self) -> (r: Self)
        ensures
            r@ == self@,
    {
        proof {
            use_type_invariant(self);
        }
        Self(self.0.clone())
    }
}

} // verus!
