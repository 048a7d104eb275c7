use crate::subscriber_email::SubscriberEmail;
use vstd::prelude::*;

verus! {

/// Why sending an email failed. Nothing is retried.
#[derive(Debug, Clone, Copy, PartialEq, Eq, Structural)]
pub enum SendError {
    /// No response arrived within the configured timeout.
    Timeout,
    /// The gateway answered with a status outside 200 to 299.
    HttpStatus(u16),
    /// The connection failed.
    Transport,
}

/// Whether an HTTP status code reports success.
pub open spec fn is_success_status(code: u16) -> bool {
    200 <= code && code < 300
}

/// The outcome of one attempt to send: `status` is the gateway's answer, if
/// one arrived, and `timed_out` says whether the wait for it ran out.
pub open spec fn send_outcome_spec(timed_out: bool, status: Option<u16>) -> Result<(), SendError> {
    match status {
        Some(code) => if is_success_status(code) {
            Ok(())
        } else {
            Err(SendError::HttpStatus(code))
        },
        None => if timed_out {
            Err(SendError::Timeout)
        } else {
            Err(SendError::Transport)
        },
    }
}

/// Classifies one attempt to send.
pub fn send_outcome(timed_out: bool, status: Option<u16>) -> (r: Result<(), SendError>)
    ensures
        r == send_outcome_spec(timed_out, status),
{
    match status {
        Some(code) => if 200 <= code && code < 300 {
            Ok(())
        } else {
            Err(SendError::HttpStatus(code))
        },
        None => if timed_out {
            Err(SendError::Timeout)
        } else {
            Err(SendError::Transport)
        },
    }
}

/// One email for the gateway: `POST url` with a JSON body whose keys are
/// `From`, `To`, `Subject`, `HtmlBody` and `TextBody`.
pub struct SendEmailRequest {
    pub url: String,
    pub from: String,
    pub to: String,
    pub subject: String,
    pub html_body: String,
    pub text_body: String,
}

/// The path of the gateway's send operation, below its base URL.
pub open spec fn email_url(base_url: Seq<char>) -> Seq<char> {
    base_url + "/email"@
}

/// What a client of a transactional email gateway needs to frame its
/// requests: the sender, the gateway's base URL and the timeout. The
/// credential for the `Authorization` header is held by the transport that
/// performs the request, so that it never passes through a value of this
/// library.
pub struct EmailClient {
    sender: SubscriberEmail,
    base_url: String,
    timeout_milliseconds: u64,
}

impl EmailClient {
    pub closed spec fn sender_spec(&self) -> Seq<char> {
        self.sender@
    }

    pub closed spec fn base_url_spec(&self) -> Seq<char> {
        self.base_url@
    }

    pub closed spec fn timeout_spec(&self) -> u64 {
        self.timeout_milliseconds
    }

    pub fn new(
        sender: SubscriberEmail,
        base_url: String,
        timeout_milliseconds: u64,
    ) -> (r: EmailClient)
        ensures
            r.sender_spec() == sender@,
            r.base_url_spec() == base_url@,
            r.timeout_spec() == timeout_milliseconds,
    {
        EmailClient { sender, base_url, timeout_milliseconds }
    }

    /// The request that sends one email to `recipient` from this client's
    /// sender, through `{base_url}/email`.
    pub fn request(
        &self,
        recipient: &SubscriberEmail,
        subject: &str,
        html_body: &str,
        text_body: &str,
    ) -> (r: SendEmailRequest)
        ensures
            r.url@ == email_url(self.base_url_spec()),
            r.from@ == self.sender_spec(),
            r.to@ == recipient@,
            r.subject@ == subject@,
            r.html_body@ == html_body@,
            r.text_body@ == text_body@,
    {
        let url = self.base_url.clone().concat("/email");
        SendEmailRequest {
            url,
            from: String::from_str(self.sender.as_ref()),
            to: String::from_str(recipient.as_ref()),
            subject: String::from_str(subject),
            html_body: String::from_str(html_body),
            text_body: String::from_str(text_body),
        }
    }

    /// How long to wait for the gateway, in milliseconds.
    pub fn timeout_milliseconds(&self) -> (r: u64)
        ensures
            r == self.timeout_spec(),
    {
        self.timeout_milliseconds
    }
}

} // verus!
