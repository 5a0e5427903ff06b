//! What can go wrong in a call to the provider.

use vstd::prelude::*;
use crate::text::{join, joined, lemma_joined_holds_each, occurs_in, texts};

verus! {

/// The broad class of a failure.
#[derive(Clone, Copy, Debug, PartialEq, Eq, Structural)]
pub enum ErrorKind {
    /// The process configuration does not yield a credential.
    Configuration,
    /// The credential cannot be written into a header.
    Protocol,
    /// The network exchange did not complete.
    Transport,
}

/// The step of the call that failed.
#[derive(Clone, Copy, Debug, PartialEq, Eq, Structural)]
pub enum Cause {
    /// The credential could not be read from the configuration.
    CredentialUnavailable,
    /// The credential is not a valid header value.
    CredentialMalformed,
    /// The request could not be sent, or no response arrived.
    SendFailed,
    /// The response body could not be read to its end.
    BodyUnreadable,
}

/// What a [`ProviderError`] holds.
pub struct ProviderErrorView {
    pub cause: Cause,
    pub description: Seq<char>,
}

/// A failed call: the step that failed and a description for people to read.
#[derive(Debug, PartialEq, Eq)]
pub struct ProviderError {
    pub cause: Cause,
    pub description: String,
}

impl View for ProviderError {
    type V = ProviderErrorView;

    open spec fn view(&self) -> ProviderErrorView {
        ProviderErrorView { cause: self.cause, description: self.description@ }
    }
}

/// The class that each cause belongs to.
pub open spec fn kind_of(cause: Cause) -> ErrorKind {
    match cause {
        Cause::CredentialUnavailable => ErrorKind::Configuration,
        Cause::CredentialMalformed => ErrorKind::Protocol,
        Cause::SendFailed => ErrorKind::Transport,
        Cause::BodyUnreadable => ErrorKind::Transport,
    }
}

/// The description of a credential that is not set.
pub open spec fn missing_credential_text() -> Seq<char> {
    "missing credential: environment variable not found"@
}

/// The description of a credential that is set to something that is not text.
pub open spec fn unreadable_credential_text() -> Seq<char> {
    "invalid credential: environment variable was not valid unicode"@
}

/// The description of a failure that the transport reports as a chain of
/// messages, the failure first and then what caused it, each cause behind the
/// message it explains.
pub open spec fn chain_text(messages: Seq<Seq<char>>) -> Seq<char> {
    joined(messages, ": "@)
}

/// The description of a chain of messages holds every message of the chain,
/// the underlying cause at its end included.
pub proof fn law_description_holds_causes(messages: Seq<Seq<char>>, i: int)
    requires
        0 <= i < messages.len(),
    ensures
        occurs_in(messages[i], chain_text(messages)),
{
    lemma_joined_holds_each(messages, ": "@, i);
}

/// Describes a failure of the transport from its chain of messages.
pub fn describe_chain(messages: &Vec<String>) -> (description: String)
    ensures
        description@ == chain_text(texts(messages@)),
{
    join(messages, ": ")
}

impl Cause {
    /// The class of this cause.
    pub fn kind(self) -> (kind: ErrorKind)
        ensures
            kind == kind_of(self),
    {
        match self {
            Cause::CredentialUnavailable => ErrorKind::Configuration,
            Cause::CredentialMalformed => ErrorKind::Protocol,
            Cause::SendFailed => ErrorKind::Transport,
            Cause::BodyUnreadable => ErrorKind::Transport,
        }
    }
}

impl ProviderError {
    /// The failure of a call whose credential is not set.
    pub fn missing_credential() -> (error: ProviderError)
        ensures
            error@ == (ProviderErrorView {
                cause: Cause::CredentialUnavailable,
                description: missing_credential_text(),
            }),
    {
        ProviderError {
            cause: Cause::CredentialUnavailable,
            description: String::from_str("missing credential: environment variable not found"),
        }
    }

    /// The failure of a call whose credential is set but is not text. The
    /// description does not repeat the value.
    pub fn unreadable_credential() -> (error: ProviderError)
        ensures
            error@ == (ProviderErrorView {
                cause: Cause::CredentialUnavailable,
                description: unreadable_credential_text(),
            }),
    {
        ProviderError {
            cause: Cause::CredentialUnavailable,
            description: String::from_str(
                "invalid credential: environment variable was not valid unicode",
            ),
        }
    }

    /// A failure of the given cause, described by `description`.
    pub fn new(cause: Cause, description: String) -> (error: ProviderError)
        ensures
            error@ == (ProviderErrorView { cause, description: description@ }),
    {
        ProviderError { cause, description }
    }

    /// The class of the failure.
    pub fn kind(&self) -> (kind: ErrorKind)
        ensures
            kind == kind_of(self@.cause),
    {
        self.cause.kind()
    }

    /// The description of the failure.
    pub fn description(&self) -> (text: &str)
        ensures
            text@ == self@.description,
    {
        self.description.as_str()
    }
}

impl Clone for ProviderError {
    fn clone(&self) -> (copy: ProviderError)
        ensures
            copy@ == self@,
    {
        ProviderError { cause: self.cause, description: self.description.clone() }
    }
}

} // verus!
