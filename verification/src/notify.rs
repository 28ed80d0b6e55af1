//! Notifier: prepares the notification email and the SMTP client. Parsing
//! the addresses and assembling the message and client are compute steps and
//! happen here; actually submitting the message to the relay is I/O and stays
//! outside the library. A send failure is logged by the surroundings and
//! never surfaces as fatal.
//!
//! The built message and client are opaque outside values, so each is carried
//! in a struct beside a plain record of what it was built from; the trusted
//! builders fill that record from their arguments, and the contracts speak of
//! it.

use vstd::prelude::*;

verus! {

/// Why no notification email could be prepared.
#[derive(Debug, Clone, Copy, PartialEq, Eq, Structural)]
pub enum NotifyError {
    /// The sender or recipient is not a valid email address.
    Address,
    /// The SMTP relay client could not be constructed.
    Connection,
}

#[verifier::external_type_specification]
#[verifier::external_body]
pub struct ExMessage(lettre::Message);

#[verifier::external_type_specification]
#[verifier::external_body]
pub struct ExSmtpTransport(lettre::SmtpTransport);

/// What a built notification email holds: the sender's display name and
/// address, the recipient address (set with no display name), the subject
/// and the body.
pub struct EmailModel {
    pub sender_name: Seq<char>,
    pub from: Seq<char>,
    pub to: Seq<char>,
    pub subject: Seq<char>,
    pub body: Seq<char>,
}

/// A built notification email, beside the values it was built from.
pub struct Email {
    pub message: lettre::Message,
    pub sender_name: String,
    pub from: String,
    pub to: String,
    pub subject: String,
    pub body: String,
}

impl View for Email {
    type V = EmailModel;

    open spec fn view(&self) -> EmailModel {
        EmailModel {
            sender_name: self.sender_name@,
            from: self.from@,
            to: self.to@,
            subject: self.subject@,
            body: self.body@,
        }
    }
}

/// What a prepared SMTP client holds: the relay host, the port, and the
/// credentials it will authenticate with.
pub struct MailerModel {
    pub server: Seq<char>,
    pub port: u16,
    pub username: Seq<char>,
    pub password: Seq<char>,
}

/// A prepared SMTP client, beside the values it was built from.
pub struct Mailer {
    pub transport: lettre::SmtpTransport,
    pub server: String,
    pub port: u16,
    pub username: String,
    pub password: String,
}

impl View for Mailer {
    type V = MailerModel;

    open spec fn view(&self) -> MailerModel {
        MailerModel {
            server: self.server@,
            port: self.port,
            username: self.username@,
            password: self.password@,
        }
    }
}

/// Whether lettre accepts the text as an email address; decided from the
/// text alone.
pub uninterp spec fn smtp_addr_ok(s: Seq<char>) -> bool;

/// Relies on lettre::Address's `FromStr` impl, which accepts or rejects from
/// the text alone (local-part and domain checks), named `smtp_addr_ok`; and
/// on lettre's `MessageBuilder`, whose `body` method fails only on a missing
/// or plural originator or an empty envelope, so with exactly one `from`
/// mailbox and one `to` mailbox set it always builds the message, from these
/// arguments alone. (The builder also stamps a `Date:` header from the
/// clock; httpdate aborts on a system clock before the Unix epoch or at year
/// 9999 and beyond.)
#[verifier::external_body]
fn build_message(sender_name: &str, from: &str, to: &str, subject: &str, body: String) -> (r: Option<Email>)
    ensures
        r is Some <==> (smtp_addr_ok(from@) && smtp_addr_ok(to@)),
        r is Some ==> r->Some_0@ == (EmailModel {
            sender_name: sender_name@,
            from: from@,
            to: to@,
            subject: subject@,
            body: body@,
        }),
{
    let from_addr: lettre::Address = match from.parse() {
        Ok(a) => a,
        Err(_) => return None,
    };
    let to_addr: lettre::Address = match to.parse() {
        Ok(a) => a,
        Err(_) => return None,
    };
    let message = lettre::Message::builder().from(
        lettre::message::Mailbox::new(Some(sender_name.to_string()), from_addr),
    ).to(lettre::message::Mailbox::new(None, to_addr)).subject(subject).body(body.clone()).ok()?;
    let (sender_name, from, to) = (sender_name.to_string(), from.to_string(), to.to_string());
    Some(Email { message, sender_name, from, to, subject: subject.to_string(), body })
}

/// Relies on lettre::SmtpTransport::relay, which prepares TLS parameters for
/// the host — its failure depends on the TLS backend, so success is not
/// promised — and on the builder's `port` and `credentials` methods: the
/// client that does come back is configured with exactly the given server,
/// port, username and password.
#[verifier::external_body]
fn build_mailer(server: &str, port: u16, username: &str, password: &str) -> (r: Option<Mailer>)
    ensures
        r is Some ==> r->Some_0@ == (MailerModel {
            server: server@,
            port: port,
            username: username@,
            password: password@,
        }),
{
    let builder = match lettre::SmtpTransport::relay(server) {
        Ok(b) => b,
        Err(_) => return None,
    };
    let (username, password) = (username.to_string(), password.to_string());
    let transport = builder.port(port).credentials(
        lettre::transport::smtp::authentication::Credentials::new(
            username.clone(),
            password.clone(),
        ),
    ).build();
    Some(Mailer { transport, server: server.to_string(), port, username, password })
}

/// Builds the notification email: the account address as sender under the
/// fixed display name "Tunnel Monitor", the recipient with no display name,
/// and the subject and already rendered body verbatim. Fails with an address
/// error exactly when the account or the recipient text is not a valid email
/// address.
pub fn prepare_email(smtp_user: &str, recipient: &str, subject: &str, body: String) -> (r: Result<Email, NotifyError>)
    ensures
        r is Ok <==> (smtp_addr_ok(smtp_user@) && smtp_addr_ok(recipient@)),
        r is Ok ==> r->Ok_0@ == (EmailModel {
            sender_name: "Tunnel Monitor"@,
            from: smtp_user@,
            to: recipient@,
            subject: subject@,
            body: body@,
        }),
        r is Err ==> r->Err_0 == NotifyError::Address,
{
    match build_message("Tunnel Monitor", smtp_user, recipient, subject, body) {
        Some(email) => Ok(email),
        None => Err(NotifyError::Address),
    }
}

/// Prepares the SMTP client: the relay host, the overridden port and the
/// account credentials, all passed through verbatim. Nothing is sent yet; a
/// connection error is reported when the client cannot be constructed.
pub fn prepare_mailer(server: &str, port: u16, username: &str, password: &str) -> (r: Result<Mailer, NotifyError>)
    ensures
        r is Ok ==> r->Ok_0@ == (MailerModel {
            server: server@,
            port: port,
            username: username@,
            password: password@,
        }),
        r is Err ==> r->Err_0 == NotifyError::Connection,
{
    match build_mailer(server, port, username, password) {
        Some(mailer) => Ok(mailer),
        None => Err(NotifyError::Connection),
    }
}

} // verus!
