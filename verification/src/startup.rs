use vstd::prelude::*;

verus! {

/// The address under which the application is reachable from outside: the
/// prefix of every link that it mails out.
#[derive(Debug)]
pub struct ApplicationBaseUrl(pub String);

} // verus!
