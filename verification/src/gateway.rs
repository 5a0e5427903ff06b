//! What the gateway answers with.
//!
//! The provider route answers with the outcome of the call as a plain body and
//! leaves the status code alone, so a failure shows only in the text. The
//! data-backed route reports its failures with a server-error status.

use vstd::prelude::*;
use crate::client::{
    law_passthrough,
    law_unavailable_credential,
    outcome,
    outcome_view,
    EventView,
    Exchange,
    ExchangeView,
    LookupView,
    Phase,
};
use crate::envelope::{greeting_request, ProviderRequest, ProviderRequestView};
use crate::error::{missing_credential_text, ProviderError, ProviderErrorView};
use crate::headers::is_header_text;

verus! {

/// What precedes the description of a failure in the body.
pub open spec fn error_prefix() -> Seq<char> {
    "Error: "@
}

/// The body for the outcome of a call: the response body as it is, or the
/// description of the failure behind [`error_prefix`].
pub open spec fn rendered(outcome: Result<Seq<char>, ProviderErrorView>) -> Seq<char> {
    match outcome {
        Ok(body) => body,
        Err(error) => error_prefix() + error.description,
    }
}

/// The status code of a success.
pub const STATUS_OK: u16 = 200;

/// The status code of a failure on the server's side.
pub const STATUS_SERVER_ERROR: u16 = 500;

/// A response of the gateway: a status code and a body.
#[derive(Debug, PartialEq, Eq)]
pub struct Reply {
    pub status: u16,
    pub body: String,
}

/// Starts the call that the provider route makes: the fixed greeting to the
/// model that the gateway is set up for, with nothing done yet.
pub fn begin(model: &str) -> (exchange: Exchange)
    ensures
        exchange@ == (ExchangeView {
            phase: Phase::AwaitingCredential,
            envelope: greeting_request(model@),
        }),
{
    Exchange::new(ProviderRequest::greeting(model))
}

/// Renders the outcome of a call as the body of the provider route.
pub fn render(outcome: Result<String, ProviderError>) -> (body: String)
    ensures
        body@ == rendered(outcome_view(outcome)),
{
    match outcome {
        Ok(body) => body,
        Err(error) => {
            let mut body: String = String::from_str("Error: ");
            body.append(error.description.as_str());
            body
        },
    }
}

/// The response of the provider route. The status says success whether the
/// call succeeded or not.
pub fn provider_reply(outcome: Result<String, ProviderError>) -> (reply: Reply)
    ensures
        reply.status == STATUS_OK,
        reply.body@ == rendered(outcome_view(outcome)),
{
    Reply { status: STATUS_OK, body: render(outcome) }
}

/// The response of the data-backed route when its configuration or its store
/// fails: a server error with the description as the body.
pub fn persistence_failure_reply(description: String) -> (reply: Reply)
    ensures
        reply.status == STATUS_SERVER_ERROR,
        reply.body@ == description@,
{
    Reply { status: STATUS_SERVER_ERROR, body: description }
}

/// The provider route answers with exactly the body that the provider sent,
/// whatever the status code of the provider's response.
pub proof fn law_reply_is_response_body(
    envelope: ProviderRequestView,
    credential: Seq<char>,
    status: u16,
    body: Seq<char>,
)
    requires
        is_header_text(credential),
    ensures
        outcome(
            Phase::AwaitingCredential,
            envelope,
            seq![
                EventView::Credential(LookupView::Found(credential)),
                EventView::Responded(status),
                EventView::Body(body),
            ],
        ) matches Some(result) && rendered(result) == body,
{
    law_passthrough(envelope, credential, status, body);
}

/// When the credential is not set, the provider route answers with the error
/// prefix and a description that names the missing credential.
pub proof fn law_reply_names_missing_credential(envelope: ProviderRequestView)
    ensures
        outcome(
            Phase::AwaitingCredential,
            envelope,
            seq![EventView::Credential(LookupView::Missing)],
        ) matches Some(result) && rendered(result) == error_prefix() + missing_credential_text(),
{
    law_unavailable_credential(envelope, LookupView::Missing);
}

} // verus!
