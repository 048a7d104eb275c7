use crate::email_client::{email_url, send_outcome_spec, EmailClient, SendEmailRequest, SendError};
use crate::new_subscriber::{form_ok, FormData, NewSubscriber};
use crate::store::{
    confirmed, has_id, has_token, is_hyphenated_uuid, model_wf, reaches_subscriber, registered,
    registration_adds_one_pending_row, ConfirmationOutcome, StoreError, StoreModel,
    SubscriptionStatus, SubscriptionStore,
};
use crate::subscriber_email::{email_syntax_ok, SubscriberEmail};
use crate::subscriber_name::name_problem;
use vstd::prelude::*;

verus! {

/// How a registration ended.
#[derive(Debug, Clone, Copy, PartialEq, Eq, Structural)]
pub enum RegistrationResult {
    Accepted,
    /// The name or the address was refused; nothing was stored or sent.
    InvalidInput,
    /// The store refused or failed; nothing was sent.
    PersistenceFailed,
    /// The subscriber was stored, pending confirmation, but the
    /// confirmation email could not be sent.
    NotificationFailed,
}

impl RegistrationResult {
    /// The HTTP status of the response.
    pub fn status_code(&self) -> (r: u16)
        ensures
            r == registration_status_code(*self),
    {
        match self {
            RegistrationResult::Accepted => 200,
            RegistrationResult::InvalidInput => 400,
            RegistrationResult::PersistenceFailed => 500,
            RegistrationResult::NotificationFailed => 500,
        }
    }
}

pub open spec fn registration_status_code(r: RegistrationResult) -> u16 {
    match r {
        RegistrationResult::Accepted => 200,
        RegistrationResult::InvalidInput => 400,
        _ => 500,
    }
}

/// How a confirmation ended.
#[derive(Debug, Clone, Copy, PartialEq, Eq, Structural)]
pub enum ConfirmationResult {
    Confirmed,
    /// The token reaches no subscriber.
    NotFound,
    PersistenceFailed,
}

impl ConfirmationResult {
    /// The HTTP status of the response.
    pub fn status_code(&self) -> (r: u16)
        ensures
            r == confirmation_status_code(*self),
    {
        match self {
            ConfirmationResult::Confirmed => 200,
            ConfirmationResult::NotFound => 404,
            ConfirmationResult::PersistenceFailed => 500,
        }
    }
}

pub open spec fn confirmation_status_code(r: ConfirmationResult) -> u16 {
    match r {
        ConfirmationResult::Confirmed => 200,
        ConfirmationResult::NotFound => 404,
        ConfirmationResult::PersistenceFailed => 500,
    }
}

/// The subject of the confirmation email.
pub open spec fn confirmation_subject() -> Seq<char> {
    "hello"@
}

/// `req` is the confirmation email for `token`, sent by `client` to
/// `recipient`: the token is the whole of both bodies. The bodies carry the
/// bare token, not a confirmation URL around it, as the deployed service
/// does; a link would change what subscribers receive.
pub open spec fn is_confirmation_email(
    req: SendEmailRequest,
    client: EmailClient,
    recipient: Seq<char>,
    token: Seq<char>,
) -> bool {
    &&& req.url@ == email_url(client.base_url_spec())
    &&& req.from@ == client.sender_spec()
    &&& req.to@ == recipient
    &&& req.subject@ == confirmation_subject()
    &&& req.html_body@ == token
    &&& req.text_body@ == token
}

/// The confirmation email that carries `token` to `recipient`.
pub fn confirmation_email(client: &EmailClient, recipient: &SubscriberEmail, token: &str) -> (r:
    SendEmailRequest)
    ensures
        is_confirmation_email(r, *client, recipient@, token@),
{
    client.request(recipient, "hello", token, token)
}

/// The first step of a registration: validate the form. Only a valid form
/// goes on to the store; any refusal ends the registration with nothing
/// stored and nothing sent.
pub fn validate_registration(form: FormData) -> (r: Result<NewSubscriber, RegistrationResult>)
    ensures
        r is Ok <==> form_ok(form.name@, form.email@),
        r is Ok ==> r->Ok_0.name@ == form.name@ && r->Ok_0.email@ == form.email@,
        r is Err ==> r->Err_0 == RegistrationResult::InvalidInput,
        form.name@.len() == 0 || form.email@.len() == 0 ==> r is Err,
{
    match NewSubscriber::try_from(form) {
        Ok(s) => Ok(s),
        Err(_) => Err(RegistrationResult::InvalidInput),
    }
}

/// The step after the store answered: a token leads to the confirmation
/// email; a storage failure ends the registration before anything is sent.
pub fn after_persist(
    client: &EmailClient,
    recipient: &SubscriberEmail,
    persisted: Result<String, StoreError>,
) -> (r: Result<SendEmailRequest, RegistrationResult>)
    ensures
        persisted is Ok ==> r is Ok && is_confirmation_email(
            r->Ok_0,
            *client,
            recipient@,
            persisted->Ok_0@,
        ),
        persisted is Err ==> r == Err::<SendEmailRequest, RegistrationResult>(
            RegistrationResult::PersistenceFailed,
        ),
{
    match persisted {
        Ok(token) => Ok(confirmation_email(client, recipient, token.as_str())),
        Err(_) => Err(RegistrationResult::PersistenceFailed),
    }
}

pub open spec fn after_send_spec(sent: Result<(), SendError>) -> RegistrationResult {
    match sent {
        Ok(_) => RegistrationResult::Accepted,
        Err(_) => RegistrationResult::NotificationFailed,
    }
}

/// The last step of a registration. A failed send is reported as such; the
/// stored subscriber stays, pending confirmation, and is not rolled back.
pub fn after_send(sent: Result<(), SendError>) -> (r: RegistrationResult)
    ensures
        r == after_send_spec(sent),
{
    match sent {
        Ok(_) => RegistrationResult::Accepted,
        Err(_) => RegistrationResult::NotificationFailed,
    }
}

/// Validates the form and stores the subscriber with a fresh token, then
/// frames the confirmation email that is still to be sent; its outcome is
/// handed to `after_send`.
pub fn start_registration(
    store: &mut SubscriptionStore,
    client: &EmailClient,
    form: FormData,
) -> (r: Result<SendEmailRequest, RegistrationResult>)
    requires
        old(store).wf(),
    ensures
        final(store).wf(),
        !form_ok(form.name@, form.email@) ==> r == Err::<SendEmailRequest, RegistrationResult>(
            RegistrationResult::InvalidInput,
        ) && final(store)@ == old(store)@,
        form.name@.len() == 0 || form.email@.len() == 0 ==> r == Err::<
            SendEmailRequest,
            RegistrationResult,
        >(RegistrationResult::InvalidInput) && final(store)@ == old(store)@,
        form_ok(form.name@, form.email@) && old(store)@.subscribers.len() == 0 ==> r is Ok,
        form_ok(form.name@, form.email@) && r is Err ==> r->Err_0
            == RegistrationResult::PersistenceFailed && final(store)@ == old(store)@,
        r is Ok ==> form_ok(form.name@, form.email@) && exists|id: u128, at: i64, token: Seq<char>|
            !has_id(old(store)@, id) && !has_token(old(store)@, token) && is_hyphenated_uuid(token)
                && final(store)@
                == #[trigger] registered(old(store)@, id, form.email@, form.name@, at, token)
                && is_confirmation_email(r->Ok_0, *client, form.email@, token),
{
    let subscriber = match validate_registration(form) {
        Ok(s) => s,
        Err(e) => return Err(e),
    };
    let persisted = store.register(&subscriber);
    after_persist(client, &subscriber.email, persisted)
}

pub open spec fn confirmation_result_spec(outcome: Result<ConfirmationOutcome, StoreError>) -> ConfirmationResult {
    match outcome {
        Ok(ConfirmationOutcome::Confirmed) => ConfirmationResult::Confirmed,
        Ok(ConfirmationOutcome::TokenNotFound) => ConfirmationResult::NotFound,
        Err(_) => ConfirmationResult::PersistenceFailed,
    }
}

/// Turns what the store reported for a confirmation into its result.
pub fn confirmation_result(outcome: Result<ConfirmationOutcome, StoreError>) -> (r: ConfirmationResult)
    ensures
        r == confirmation_result_spec(outcome),
{
    match outcome {
        Ok(ConfirmationOutcome::Confirmed) => ConfirmationResult::Confirmed,
        Ok(ConfirmationOutcome::TokenNotFound) => ConfirmationResult::NotFound,
        Err(_) => ConfirmationResult::PersistenceFailed,
    }
}

/// The query of a confirmation request.
pub struct Parameters {
    pub token: String,
}

/// Redeems a confirmation token against the store.
pub fn handle_confirmation(store: &mut SubscriptionStore, token: &str) -> (r: ConfirmationResult)
    requires
        old(store).wf(),
    ensures
        final(store).wf(),
        final(store)@ == confirmed(old(store)@, token@),
        r == ConfirmationResult::Confirmed <==> reaches_subscriber(old(store)@, token@),
        r != ConfirmationResult::Confirmed ==> r == ConfirmationResult::NotFound,
{
    let outcome = store.confirm_subscriber(token);
    confirmation_result(Ok(outcome))
}

/// A send that timed out is reported as `Timeout`, and the registration then
/// ends as a notification failure. No step after the send touches the store,
/// so the subscriber it stored stays there, pending confirmation.
pub proof fn timed_out_send_keeps_registration(
    m: StoreModel,
    id: u128,
    email: Seq<char>,
    name: Seq<char>,
    at: i64,
    token: Seq<char>,
)
    requires
        model_wf(m),
        !has_id(m, id),
        !has_token(m, token),
        name_problem(name) is None,
        email_syntax_ok(email),
    ensures
        send_outcome_spec(true, None) == Err::<(), SendError>(SendError::Timeout),
        after_send_spec(send_outcome_spec(true, None)) == RegistrationResult::NotificationFailed,
        registration_status_code(after_send_spec(send_outcome_spec(true, None))) == 500,
        registered(m, id, email, name, at, token).subscribers.last().status
            == SubscriptionStatus::PendingConfirmation,
{
    registration_adds_one_pending_row(m, id, email, name, at, token);
}

} // verus!
