use stoic_newsletter::domain::Email;
use stoic_newsletter::email_client::{EmailClient, OutgoingEmail, SendFailure};
use stoic_newsletter::simulation::MailServer;

fn client(url: &str) -> EmailClient {
    let sender = Email::parse(String::from("test@email.com")).expect("Failed to parse email");
    EmailClient::new(String::from(url), sender, String::from("123authcode"))
}

fn recipient() -> Email {
    Email::parse(String::from("test12@email.com")).expect("Failed to parse email")
}

#[test]
fn send_email_fires_a_request_to_base_url() {
    let mut server = MailServer::answering(vec![Some(200)]);
    let request = client("http://127.0.0.1:9000").send_email(recipient(), "test email", "testing");
    assert_eq!(request.url, "http://127.0.0.1:9000/mail/send");
    assert_eq!(request.authorization, "Bearer 123authcode");
    assert_eq!(request.payload.personalizations[0].to[0].email, "test12@email.com");
    assert_eq!(request.payload.from.email, "test@email.com");
    assert_eq!(request.payload.subject, "test email");
    assert_eq!(request.payload.content[0].value, "testing");
    assert_eq!(request.payload.content[0].content_type, "text/html");

    let res = EmailClient::outcome(server.receive(request));
    assert!(res.is_ok());
    assert_eq!(server.received().len(), 1);
}

#[test]
fn send_email_fails_if_server_returns_500() {
    let mut server = MailServer::answering(vec![Some(500)]);
    let request = client("http://127.0.0.1:9000").send_email(recipient(), "test email", "testing");
    let res = EmailClient::outcome(server.receive(request));
    assert!(res.is_err());
    assert_eq!(res, Err(SendFailure::Rejected(500)));
    assert_eq!(server.received().len(), 1);
}

#[test]
fn only_the_statuses_from_200_to_299_are_a_success() {
    for status in [200, 201, 250, 299] {
        assert_eq!(EmailClient::outcome(Some(status)), Ok(()));
    }
    for status in [0, 100, 199, 300, 301, 304, 400, 401, 404, 500, 503, 599, 600, u16::MAX] {
        assert_eq!(EmailClient::outcome(Some(status)), Err(SendFailure::Rejected(status)));
    }
    assert_eq!(EmailClient::outcome(None), Err(SendFailure::Transport));
}

#[test]
fn a_message_that_is_to_go_out_becomes_one_request() {
    let email = OutgoingEmail {
        recipient: recipient(),
        subject: String::from("jako"),
        body: String::from("<b>jako</b>"),
    };
    let request = client("https://api.mail.example/v3").request(email);
    assert_eq!(request.url, "https://api.mail.example/v3/mail/send");
    assert_eq!(request.payload.personalizations[0].to[0].email, "test12@email.com");
    assert_eq!(request.payload.subject, "jako");
    assert_eq!(request.payload.content[0].value, "<b>jako</b>");
}

#[test]
fn the_mail_server_answers_as_it_was_told_and_then_with_200() {
    let mut server = MailServer::answering(vec![Some(503), None]);
    let client = client("http://mail.test");
    assert_eq!(server.receive(client.send_email(recipient(), "1", "a")), Some(503));
    assert_eq!(server.receive(client.send_email(recipient(), "2", "b")), None);
    assert_eq!(server.receive(client.send_email(recipient(), "3", "c")), Some(200));
    assert_eq!(server.receive(client.send_email(recipient(), "4", "d")), Some(200));
    let subjects: Vec<&str> = server.received().iter().map(|r| r.payload.subject.as_str()).collect();
    assert_eq!(subjects, ["1", "2", "3", "4"]);
    let mut server = MailServer::new();
    assert_eq!(server.received().len(), 0);
    assert_eq!(server.receive(client.send_email(recipient(), "1", "a")), Some(200));
}
