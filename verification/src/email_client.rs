//! The client side of the e-mail service: what is sent for one message, and
//! how the service's answer is read.

use crate::domain::Email;
use vstd::prelude::*;
use vstd::string::*;

verus! {

/// The settings under which messages are handed to the e-mail service: its
/// address, the sender of every message and the code that authorises the
/// sender.
#[derive(Debug)]
pub struct EmailClient {
    url: String,
    sender: Email,
    auth_code: String,
}

/// The settings of a client as texts.
pub struct EmailClientView {
    pub url: Seq<char>,
    pub sender: Seq<char>,
    pub auth_code: Seq<char>,
}

impl View for EmailClient {
    type V = EmailClientView;

    closed spec fn view(&self) -> EmailClientView {
        EmailClientView { url: self.url@, sender: self.sender@, auth_code: self.auth_code@ }
    }
}

/// A message that is to go out: to whom, under which subject, and its body in
/// HTML.
#[derive(Debug)]
pub struct OutgoingEmail {
    pub recipient: Email,
    pub subject: String,
    pub body: String,
}

/// A message that is to go out, as texts.
pub struct OutgoingEmailView {
    pub recipient: Seq<char>,
    pub subject: Seq<char>,
    pub body: Seq<char>,
}

impl View for OutgoingEmail {
    type V = OutgoingEmailView;

    open spec fn view(&self) -> OutgoingEmailView {
        OutgoingEmailView { recipient: self.recipient@, subject: self.subject@, body: self.body@ }
    }
}

/// One address of a message.
pub struct Address {
    pub email: String,
}

/// The recipients of one copy of a message.
pub struct Personalizations {
    pub to: [Address; 1],
}

/// One body of a message, with its media type.
pub struct Content {
    pub value: String,
    pub content_type: String,
}

/// A message as the e-mail service takes it.
pub struct SendEmailPayload {
    pub personalizations: [Personalizations; 1],
    pub from: Address,
    pub subject: String,
    pub content: [Content; 1],
}

/// One call of the e-mail service: a POST of `payload`, as JSON, to `url`,
/// with `authorization` as the header of that name.
pub struct EmailRequest {
    pub url: String,
    pub authorization: String,
    pub payload: SendEmailPayload,
}

/// A call of the e-mail service as texts.
pub struct EmailRequestView {
    pub url: Seq<char>,
    pub authorization: Seq<char>,
    pub from: Seq<char>,
    pub to: Seq<char>,
    pub subject: Seq<char>,
    pub content_value: Seq<char>,
    pub content_type: Seq<char>,
}

impl View for EmailRequest {
    type V = EmailRequestView;

    open spec fn view(&self) -> EmailRequestView {
        EmailRequestView {
            url: self.url@,
            authorization: self.authorization@,
            from: self.payload.from.email@,
            to: self.payload.personalizations[0].to[0].email@,
            subject: self.payload.subject@,
            content_value: self.payload.content[0].value@,
            content_type: self.payload.content[0].content_type@,
        }
    }
}

/// Why a message did not go out.
#[derive(Clone, Copy, Debug, PartialEq, Eq, Structural)]
pub enum SendFailure {
    /// The service could not be reached, or its answer could not be read.
    Transport,
    /// The service answered with this status, which is not a success.
    Rejected(u16),
}

/// The call that sends `body`, as HTML, under `subject` to `recipient`.
pub open spec fn request_for(
    client: EmailClientView,
    recipient: Seq<char>,
    subject: Seq<char>,
    body: Seq<char>,
) -> EmailRequestView {
    EmailRequestView {
        url: client.url + "/mail/send"@,
        authorization: "Bearer "@ + client.auth_code,
        from: client.sender,
        to: recipient,
        subject,
        content_value: body,
        content_type: "text/html"@,
    }
}

/// How the answer of the e-mail service is read: `reply` is the status of the
/// response, `None` where none came. Only a status from 200 to 299 is a
/// success.
pub open spec fn outcome_of(reply: Option<u16>) -> Result<(), SendFailure> {
    match reply {
        None => Err(SendFailure::Transport),
        Some(status) => if 200 <= status < 300 {
            Ok(())
        } else {
            Err(SendFailure::Rejected(status))
        },
    }
}

impl EmailClient {
    /// A client of the service at `url` that sends as `sender`.
    pub fn new(url: String, sender: Email, auth_code: String) -> (client: Self)
        ensures
            client@ == (EmailClientView { url: url@, sender: sender@, auth_code: auth_code@ }),
    {
        Self { url, sender, auth_code }
    }

    /// The call of the service that sends `body` under `subject` to
    /// `recipient`.
    pub fn send_email(&self, recipient: Email, subject: &str, body: &str) -> (request:
        EmailRequest)
        ensures
            request@ == request_for(self@, recipient@, subject@, body@),
    {
        let url = self.url.clone().concat("/mail/send");
        let payload = SendEmailPayload {
            personalizations: [Personalizations { to: [Address { email: recipient.as_str().to_owned() }] }],
            from: Address { email: self.sender.as_str().to_owned() },
            subject: subject.to_owned(),
            content: [Content { value: body.to_owned(), content_type: String::from_str("text/html") }],
        };
        let bearer_token = String::from_str("Bearer ").concat(self.auth_code.as_str());
        EmailRequest { url, authorization: bearer_token, payload }
    }

    /// The call of the service that sends `email`.
    pub fn request(&self, email: OutgoingEmail) -> (request: EmailRequest)
        ensures
            request@ == request_for(self@, email@.recipient, email@.subject, email@.body),
    {
        self.send_email(email.recipient, email.subject.as_str(), email.body.as_str())
    }

    /// Reads the answer of the service to one call.
    pub fn outcome(reply: Option<u16>) -> (r: Result<(), SendFailure>)
        ensures
            r == outcome_of(reply),
    {
        match reply {
            None => Err(SendFailure::Transport),
            Some(status) => if 200 <= status && status < 300 {
                Ok(())
            } else {
                Err(SendFailure::Rejected(status))
            },
        }
    }
}

} // verus!
