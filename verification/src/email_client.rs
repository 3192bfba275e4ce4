//! The email dispatcher: one templated message, posted once to the
//! provider's endpoint.
//!
//! The client prepares the outbound request and judges the provider's reply.
//! Carrying the request over the network is left to the caller, which hands
//! back what it observed as a [`ProviderReply`].

use crate::domain::SubscriberEmail;
use reqwest::Url;
use std::time::Duration;
use vstd::prelude::*;

verus! {

/// What `Url::parse` makes of `input`: the serialization of the parsed URL,
/// or `None` where `input` is no absolute URL.
pub uninterp spec fn parsed_url(input: Seq<char>) -> Option<Seq<char>>;

/// What `Url::join` makes of `reference` against the URL that `base` parses
/// to: the serialization of the resolved URL, or `None` where either step
/// fails.
pub uninterp spec fn joined_url(base: Seq<char>, reference: Seq<char>) -> Option<Seq<char>>;

/// The text of an optional string.
pub open spec fn text_of(s: Option<String>) -> Option<Seq<char>> {
    match s {
        Some(s) => Some(s@),
        None => None,
    }
}

/// `Url::parse` reads an absolute URL; the wrapper returns its serialization.
/// The result is a function of the input alone and is named, not described.
#[verifier::external_body]
fn parse_url(input: &str) -> (url: Option<String>)
    ensures
        text_of(url) == parsed_url(input@),
{
    match Url::parse(input) {
        Ok(url) => Some(String::from(url)),
        Err(_) => None,
    }
}

/// `Url::join` resolves `reference` against a base URL, here the one that
/// `base` parses to; the wrapper returns the serialization of the result.
/// The result is a function of the two texts alone and is named, not
/// described.
#[verifier::external_body]
fn join_url(base: &str, reference: &str) -> (url: Option<String>)
    ensures
        text_of(url) == joined_url(base@, reference@),
{
    match Url::parse(base) {
        Ok(base) => match base.join(reference) {
            Ok(url) => Some(String::from(url)),
            Err(_) => None,
        },
        Err(_) => None,
    }
}

/// The credential that authorizes requests to the provider. Its text is
/// reachable only through [`Credential::expose_secret`]; the type offers no
/// formatting of any kind.
pub struct Credential {
    secret: String,
}

impl View for Credential {
    type V = Seq<char>;

    closed spec fn view(&self) -> Seq<char> {
        self.secret@
    }
}

impl Credential {
    /// Wraps `secret`.
    pub fn new(secret: String) -> (credential: Credential)
        ensures
            credential@ == secret@,
    {
        Credential { secret }
    }

    /// The credential's text, for the one place that must send it.
    pub fn expose_secret(&self) -> (secret: &str)
        ensures
            secret@ == self@,
    {
        self.secret.as_str()
    }

    /// A copy of this credential.
    pub fn duplicate(&self) -> (copy: Credential)
        ensures
            copy@ == self@,
    {
        Credential { secret: self.secret.clone() }
    }
}

/// What an [`EmailClient`] is configured with.
pub struct EmailClientView {
    pub base_url: Seq<char>,
    pub sender: Seq<char>,
    pub authorization_token: Seq<char>,
    pub timeout: Duration,
}

/// The configured dispatcher: the provider's base endpoint, the fixed sender
/// address, the credential, and the time allowed for one request.
pub struct EmailClient {
    base_url: String,
    sender: SubscriberEmail,
    authorization_token: Credential,
    timeout: Duration,
}

impl View for EmailClient {
    type V = EmailClientView;

    closed spec fn view(&self) -> EmailClientView {
        EmailClientView {
            base_url: self.base_url@,
            sender: self.sender@,
            authorization_token: self.authorization_token@,
            timeout: self.timeout,
        }
    }
}

/// One outbound request to the provider, as plain values. It carries the
/// credential and therefore offers no formatting either.
pub struct EmailRequest {
    /// The HTTP method.
    pub method: String,
    /// The destination.
    pub url: String,
    /// Name of the header that carries the credential.
    pub authorization_header: String,
    /// The credential itself.
    pub authorization_token: Credential,
    /// Sender address.
    pub from: String,
    /// Recipient address.
    pub to: String,
    /// Subject line.
    pub subject: String,
    /// HTML rendering of the message.
    pub html_body: String,
    /// Plain-text rendering of the message.
    pub text_body: String,
    /// Time after which the attempt is abandoned.
    pub timeout: Duration,
}

/// An [`EmailRequest`] as mathematical values.
pub struct EmailRequestView {
    pub method: Seq<char>,
    pub url: Seq<char>,
    pub authorization_header: Seq<char>,
    pub authorization_token: Seq<char>,
    pub from: Seq<char>,
    pub to: Seq<char>,
    pub subject: Seq<char>,
    pub html_body: Seq<char>,
    pub text_body: Seq<char>,
    pub timeout: Duration,
}

impl View for EmailRequest {
    type V = EmailRequestView;

    open spec fn view(&self) -> EmailRequestView {
        EmailRequestView {
            method: self.method@,
            url: self.url@,
            authorization_header: self.authorization_header@,
            authorization_token: self.authorization_token@,
            from: self.from@,
            to: self.to@,
            subject: self.subject@,
            html_body: self.html_body@,
            text_body: self.text_body@,
            timeout: self.timeout,
        }
    }
}

/// One named field of the request's JSON body.
#[derive(Debug, PartialEq, Eq)]
pub struct BodyField {
    pub name: String,
    pub value: String,
}

/// The request that `client` sends to `url` for the given message.
pub open spec fn email_request(
    client: EmailClientView,
    url: Seq<char>,
    recipient: Seq<char>,
    subject: Seq<char>,
    html_content: Seq<char>,
    text_content: Seq<char>,
) -> EmailRequestView {
    EmailRequestView {
        method: "POST"@,
        url,
        authorization_header: "X-Postmark-Server-Token"@,
        authorization_token: client.authorization_token,
        from: client.sender,
        to: recipient,
        subject,
        html_body: html_content,
        text_body: text_content,
        timeout: client.timeout,
    }
}

impl EmailRequest {
    /// The JSON body, field by field, under the names the provider expects.
    pub fn body(&self) -> (fields: Vec<BodyField>)
        ensures
            fields@.len() == 5,
            fields@[0].name@ == "From"@ && fields@[0].value@ == self.from@,
            fields@[1].name@ == "To"@ && fields@[1].value@ == self.to@,
            fields@[2].name@ == "Subject"@ && fields@[2].value@ == self.subject@,
            fields@[3].name@ == "HtmlBody"@ && fields@[3].value@ == self.html_body@,
            fields@[4].name@ == "TextBody"@ && fields@[4].value@ == self.text_body@,
    {
        let mut fields: Vec<BodyField> = Vec::new();
        fields.push(BodyField { name: "From".to_owned(), value: self.from.clone() });
        fields.push(BodyField { name: "To".to_owned(), value: self.to.clone() });
        fields.push(BodyField { name: "Subject".to_owned(), value: self.subject.clone() });
        fields.push(BodyField { name: "HtmlBody".to_owned(), value: self.html_body.clone() });
        fields.push(BodyField { name: "TextBody".to_owned(), value: self.text_body.clone() });
        fields
    }
}

/// What came of carrying one request to the provider.
#[derive(Debug, PartialEq, Eq)]
pub enum ProviderReply {
    /// The provider answered with this HTTP status.
    Status(u16),
    /// No answer arrived within the request's timeout.
    TimedOut,
    /// The request could not be carried out; the text says why.
    TransportFailure(String),
}

/// The provider accepted the message: it answered with a 2xx status.
pub open spec fn is_accepted(reply: ProviderReply) -> bool {
    reply matches ProviderReply::Status(status) && 200 <= status <= 299
}

/// Why a dispatch failed.
#[derive(Debug, PartialEq, Eq)]
pub enum DispatchFailure {
    /// The endpoint could not be derived from the base URL.
    MalformedEndpoint,
    /// The provider answered with a status outside 2xx.
    Rejected(u16),
    /// The attempt ran out of time.
    TimedOut,
    /// The request never reached the provider.
    Transport(String),
}

/// The single error of the dispatcher. Callers treat every dispatch error
/// alike; what exactly went wrong is kept for diagnostics.
#[derive(Debug)]
pub struct DispatchError {
    failure: DispatchFailure,
}

impl DispatchError {
    /// What went wrong.
    pub closed spec fn failure(&self) -> DispatchFailure {
        self.failure
    }

    /// Whether the attempt ran out of time.
    pub fn is_timeout(&self) -> (timed_out: bool)
        ensures
            timed_out == (self.failure() is TimedOut),
    {
        match self.failure {
            DispatchFailure::TimedOut => true,
            _ => false,
        }
    }

    /// The status the provider rejected the request with, if it answered.
    pub fn status(&self) -> (status: Option<u16>)
        ensures
            status == match self.failure() {
                DispatchFailure::Rejected(status) => Some(status),
                _ => None,
            },
    {
        match self.failure {
            DispatchFailure::Rejected(status) => Some(status),
            _ => None,
        }
    }

    /// A line for the log.
    pub fn message(&self) -> (message: String)
        ensures
            message@ == dispatch_message(self.failure()),
    {
        match &self.failure {
            DispatchFailure::MalformedEndpoint => "Unable to parse email endpoint".to_owned(),
            DispatchFailure::Rejected(_) => "The email provider rejected the request".to_owned(),
            DispatchFailure::TimedOut => "The request to the email provider timed out".to_owned(),
            DispatchFailure::Transport(detail) => detail.clone(),
        }
    }
}

/// The log line for each kind of failure.
pub open spec fn dispatch_message(failure: DispatchFailure) -> Seq<char> {
    match failure {
        DispatchFailure::MalformedEndpoint => "Unable to parse email endpoint"@,
        DispatchFailure::Rejected(_) => "The email provider rejected the request"@,
        DispatchFailure::TimedOut => "The request to the email provider timed out"@,
        DispatchFailure::Transport(detail) => detail@,
    }
}

/// The failure that a reply other than a 2xx status amounts to.
pub open spec fn failure_of(reply: ProviderReply) -> DispatchFailure {
    match reply {
        ProviderReply::Status(status) => DispatchFailure::Rejected(status),
        ProviderReply::TimedOut => DispatchFailure::TimedOut,
        ProviderReply::TransportFailure(detail) => DispatchFailure::Transport(detail),
    }
}

impl EmailClient {
    /// Configures a client. Fails exactly when `base_url` is no absolute URL;
    /// otherwise the client keeps the URL in its parsed, serialized form.
    pub fn new(
        base_url: String,
        sender: SubscriberEmail,
        authorization_token: Credential,
        timeout: Duration,
    ) -> (built: Result<EmailClient, String>)
        ensures
            match built {
                Ok(client) => parsed_url(base_url@) == Some(client@.base_url)
                    && client@.sender == sender@
                    && client@.authorization_token == authorization_token@
                    && client@.timeout == timeout,
                Err(reason) => parsed_url(base_url@) is None
                    && reason@ == "Unable to parse base url."@,
            },
    {
        EmailClient::from_parsed_url(
            parse_url(base_url.as_str()),
            sender,
            authorization_token,
            timeout,
        )
    }

    /// Configures a client from what parsing its base URL gave: the
    /// serialized URL, or `None` where the text was no absolute URL.
    pub fn from_parsed_url(
        base_url: Option<String>,
        sender: SubscriberEmail,
        authorization_token: Credential,
        timeout: Duration,
    ) -> (built: Result<EmailClient, String>)
        ensures
            match built {
                Ok(client) => text_of(base_url) == Some(client@.base_url)
                    && client@.sender == sender@
                    && client@.authorization_token == authorization_token@
                    && client@.timeout == timeout,
                Err(reason) => base_url is None && reason@ == "Unable to parse base url."@,
            },
    {
        match base_url {
            Some(base_url) => Ok(EmailClient { base_url, sender, authorization_token, timeout }),
            None => Err("Unable to parse base url.".to_owned()),
        }
    }

    /// Prepares the one request that sends a message to `recipient`: a POST
    /// to the `email` endpoint under the base URL, authorized by the
    /// credential, bounded by the client's timeout.
    ///
    /// Fails exactly when the endpoint cannot be resolved against the base
    /// URL. The caller carries the request out, once, and hands the reply to
    /// [`EmailClient::dispatch_result`].
    pub fn send_email(
        &self,
        recipient: SubscriberEmail,
        subject: &str,
        html_content: &str,
        text_content: &str,
    ) -> (prepared: Result<EmailRequest, DispatchError>)
        ensures
            match prepared {
                Ok(request) => joined_url(self@.base_url, "email"@) == Some(request@.url)
                    && request@ == email_request(
                    self@,
                    request@.url,
                    recipient@,
                    subject@,
                    html_content@,
                    text_content@,
                ),
                Err(error) => joined_url(self@.base_url, "email"@) is None
                    && error.failure() is MalformedEndpoint,
            },
    {
        self.request_to(
            join_url(self.base_url.as_str(), "email"),
            recipient,
            subject,
            html_content,
            text_content,
        )
    }

    /// Prepares the request for a message to `recipient`, given what
    /// resolving the endpoint gave: its URL, or `None` where it does not
    /// resolve, which is the one way to fail.
    pub fn request_to(
        &self,
        endpoint: Option<String>,
        recipient: SubscriberEmail,
        subject: &str,
        html_content: &str,
        text_content: &str,
    ) -> (prepared: Result<EmailRequest, DispatchError>)
        ensures
            match prepared {
                Ok(request) => text_of(endpoint) == Some(request@.url) && request@
                    == email_request(
                    self@,
                    request@.url,
                    recipient@,
                    subject@,
                    html_content@,
                    text_content@,
                ),
                Err(error) => endpoint is None && error.failure() is MalformedEndpoint,
            },
    {
        match endpoint {
            Some(url) => Ok(
                EmailRequest {
                    method: "POST".to_owned(),
                    url,
                    authorization_header: "X-Postmark-Server-Token".to_owned(),
                    authorization_token: self.authorization_token.duplicate(),
                    from: self.sender.as_ref().to_owned(),
                    to: recipient.as_ref().to_owned(),
                    subject: subject.to_owned(),
                    html_body: html_content.to_owned(),
                    text_body: text_content.to_owned(),
                    timeout: self.timeout,
                },
            ),
            None => Err(DispatchError { failure: DispatchFailure::MalformedEndpoint }),
        }
    }

    /// The time allowed for one request.
    pub fn timeout(&self) -> (timeout: Duration)
        ensures
            timeout == self@.timeout,
    {
        self.timeout
    }

    /// Judges the provider's reply: a 2xx status is success, and every other
    /// status, a timeout and a transport failure are dispatch errors.
    pub fn dispatch_result(reply: ProviderReply) -> (result: Result<(), DispatchError>)
        ensures
            result is Ok <==> is_accepted(reply),
            result matches Err(error) ==> error.failure() == failure_of(reply),
    {
        match reply {
            ProviderReply::Status(status) => {
                if 200 <= status && status <= 299 {
                    Ok(())
                } else {
                    Err(DispatchError { failure: DispatchFailure::Rejected(status) })
                }
            },
            ProviderReply::TimedOut => Err(DispatchError { failure: DispatchFailure::TimedOut }),
            ProviderReply::TransportFailure(detail) => Err(
                DispatchError { failure: DispatchFailure::Transport(detail) },
            ),
        }
    }
}

} // verus!
