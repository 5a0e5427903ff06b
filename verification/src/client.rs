//! The provider client as a machine without I/O.
//!
//! One call to the provider needs three things from the outside world: the
//! credential from the process configuration, the sending of the request, and
//! the reading of the response body. An [`Exchange`] asks for them one at a
//! time. Its driver does what the last [`Action`] says, reports the outcome as
//! an [`Event`], and stops when the action is [`Action::Finish`].

use vstd::prelude::*;
use reqwest::header::HeaderMap;
use crate::envelope::{request_json, ProviderRequest, ProviderRequestView};
use crate::error::{
    kind_of,
    missing_credential_text,
    unreadable_credential_text,
    Cause,
    ErrorKind,
    ProviderError,
    ProviderErrorView,
};
use crate::headers::{
    header_entries,
    is_header_text,
    malformed_credential_text,
    provider_header_set,
    provider_headers,
};

verus! {

/// The HTTP method of every call.
pub const METHOD: &'static str = "POST";

/// The address that every call is posted to.
pub const ENDPOINT: &'static str = "https://api.anthropic.com/v1/messages";

/// The configuration key under which the credential is kept.
pub const CREDENTIAL_KEY: &'static str = "ANTHROPIC_API_KEY";

/// The HTTP method of every call.
pub open spec fn method() -> Seq<char> {
    METHOD@
}

/// The address that every call is posted to.
pub open spec fn endpoint() -> Seq<char> {
    ENDPOINT@
}

/// What reading the credential from the process configuration gave.
pub enum CredentialLookup {
    /// The key is set to this text.
    Found(String),
    /// The key is not set.
    Missing,
    /// The key is set to something that is not text.
    NotUnicode,
}

/// What a [`CredentialLookup`] holds.
pub enum LookupView {
    Found(Seq<char>),
    Missing,
    NotUnicode,
}

impl View for CredentialLookup {
    type V = LookupView;

    open spec fn view(&self) -> LookupView {
        match self {
            CredentialLookup::Found(text) => LookupView::Found(text@),
            CredentialLookup::Missing => LookupView::Missing,
            CredentialLookup::NotUnicode => LookupView::NotUnicode,
        }
    }
}

/// A request that is ready to be sent: how, where to, with which headers, and
/// with which body.
pub struct OutboundCall {
    pub method: String,
    pub url: String,
    pub headers: HeaderMap,
    pub body: String,
}

/// What an [`OutboundCall`] holds.
pub struct OutboundCallView {
    pub method: Seq<char>,
    pub url: Seq<char>,
    pub headers: Map<Seq<char>, Seq<Seq<u8>>>,
    pub body: Seq<char>,
}

impl View for OutboundCall {
    type V = OutboundCallView;

    open spec fn view(&self) -> OutboundCallView {
        OutboundCallView {
            method: self.method@,
            url: self.url@,
            headers: header_entries(self.headers),
            body: self.body@,
        }
    }
}

/// What the driver reports back.
pub enum Event {
    /// The credential was looked up.
    Credential(CredentialLookup),
    /// The request could not be sent, or no response came; the text says why.
    SendFailed(String),
    /// A response arrived with this status code.
    Responded(u16),
    /// The body could not be read to its end; the text says why.
    BodyFailed(String),
    /// The whole body, as text.
    Body(String),
}

/// What an [`Event`] holds.
pub enum EventView {
    Credential(LookupView),
    SendFailed(Seq<char>),
    Responded(u16),
    BodyFailed(Seq<char>),
    Body(Seq<char>),
}

impl View for Event {
    type V = EventView;

    open spec fn view(&self) -> EventView {
        match self {
            Event::Credential(lookup) => EventView::Credential(lookup@),
            Event::SendFailed(why) => EventView::SendFailed(why@),
            Event::Responded(status) => EventView::Responded(*status),
            Event::BodyFailed(why) => EventView::BodyFailed(why@),
            Event::Body(text) => EventView::Body(text@),
        }
    }
}

/// What the driver has to do next.
pub enum Action {
    /// Send the call and report `Responded` or `SendFailed`.
    Send(OutboundCall),
    /// Read the whole response body and report `Body` or `BodyFailed`.
    ReadBody,
    /// Nothing more: this is the outcome of the call.
    Finish(Result<String, ProviderError>),
}

/// What an [`Action`] holds.
pub enum ActionView {
    Send(OutboundCallView),
    ReadBody,
    Finish(Result<Seq<char>, ProviderErrorView>),
}

/// What the outcome of a call holds.
pub open spec fn outcome_view(outcome: Result<String, ProviderError>) -> Result<
    Seq<char>,
    ProviderErrorView,
> {
    match outcome {
        Ok(body) => Ok(body@),
        Err(error) => Err(error@),
    }
}

impl View for Action {
    type V = ActionView;

    open spec fn view(&self) -> ActionView {
        match self {
            Action::Send(call) => ActionView::Send(call@),
            Action::ReadBody => ActionView::ReadBody,
            Action::Finish(outcome) => ActionView::Finish(outcome_view(*outcome)),
        }
    }
}

/// Where an exchange stands.
#[derive(Clone, Copy, Debug, PartialEq, Eq, Structural)]
pub enum Phase {
    /// Nothing has happened yet; the credential is to be looked up.
    AwaitingCredential,
    /// The call was handed out for sending.
    AwaitingResponse,
    /// A response arrived; its body is to be read.
    AwaitingBody,
    /// The outcome was handed out.
    Finished,
}

/// The call that is made for `envelope` with `credential`: a POST to the fixed
/// address, with the three headers and the JSON form of the envelope.
pub open spec fn call_for(credential: Seq<char>, envelope: ProviderRequestView) -> OutboundCallView {
    OutboundCallView {
        method: method(),
        url: endpoint(),
        headers: provider_header_set(credential),
        body: request_json(envelope),
    }
}

/// What follows from a looked-up credential: the call to post, or the failure
/// that ends the exchange before anything is sent.
pub open spec fn prepared(lookup: LookupView, envelope: ProviderRequestView) -> Result<
    OutboundCallView,
    ProviderErrorView,
> {
    match lookup {
        LookupView::Missing => Err(
            ProviderErrorView {
                cause: Cause::CredentialUnavailable,
                description: missing_credential_text(),
            },
        ),
        LookupView::NotUnicode => Err(
            ProviderErrorView {
                cause: Cause::CredentialUnavailable,
                description: unreadable_credential_text(),
            },
        ),
        LookupView::Found(credential) => if is_header_text(credential) {
            Ok(call_for(credential, envelope))
        } else {
            Err(
                ProviderErrorView {
                    cause: Cause::CredentialMalformed,
                    description: malformed_credential_text(),
                },
            )
        },
    }
}

/// One step of an exchange: the phase that follows and the action to take, or
/// nothing if the event does not answer what the phase waits for.
///
/// A response leads to the reading of its body whatever its status code, and
/// the body that was read is the outcome as it stands.
pub open spec fn step(phase: Phase, envelope: ProviderRequestView, event: EventView) -> Option<
    (Phase, ActionView),
> {
    match (phase, event) {
        (Phase::AwaitingCredential, EventView::Credential(lookup)) => match prepared(
            lookup,
            envelope,
        ) {
            Ok(call) => Some((Phase::AwaitingResponse, ActionView::Send(call))),
            Err(error) => Some((Phase::Finished, ActionView::Finish(Err(error)))),
        },
        (Phase::AwaitingResponse, EventView::SendFailed(why)) => Some(
            (
                Phase::Finished,
                ActionView::Finish(
                    Err(ProviderErrorView { cause: Cause::SendFailed, description: why }),
                ),
            ),
        ),
        (Phase::AwaitingResponse, EventView::Responded(_)) => Some(
            (Phase::AwaitingBody, ActionView::ReadBody),
        ),
        (Phase::AwaitingBody, EventView::BodyFailed(why)) => Some(
            (
                Phase::Finished,
                ActionView::Finish(
                    Err(ProviderErrorView { cause: Cause::BodyUnreadable, description: why }),
                ),
            ),
        ),
        (Phase::AwaitingBody, EventView::Body(text)) => Some(
            (Phase::Finished, ActionView::Finish(Ok(text))),
        ),
        _ => None,
    }
}

/// The phase that follows `phase` on `event`: the same if the event is not
/// taken.
pub open spec fn next_phase(phase: Phase, envelope: ProviderRequestView, event: EventView) -> Phase {
    match step(phase, envelope, event) {
        Some((next, _)) => next,
        None => phase,
    }
}

/// The action that `event` leads to in `phase`, if the event is taken.
pub open spec fn next_action(phase: Phase, envelope: ProviderRequestView, event: EventView) -> Option<
    ActionView,
> {
    match step(phase, envelope, event) {
        Some((_, action)) => Some(action),
        None => None,
    }
}

/// What the result of [`prepare`] holds.
pub open spec fn prepared_view(r: Result<OutboundCall, ProviderError>) -> Result<
    OutboundCallView,
    ProviderErrorView,
> {
    match r {
        Ok(call) => Ok(call@),
        Err(error) => Err(error@),
    }
}

/// What the result of [`Exchange::advance`] holds.
pub open spec fn taken_view(action: Option<Action>) -> Option<ActionView> {
    match action {
        Some(taken) => Some(taken@),
        None => None,
    }
}

/// Decides what a looked-up credential leads to: the call to post for
/// `envelope`, or the failure of the whole call.
pub fn prepare(lookup: CredentialLookup, envelope: &ProviderRequest) -> (r: Result<
    OutboundCall,
    ProviderError,
>)
    ensures
        prepared_view(r) == prepared(lookup@, envelope@),
{
    match lookup {
        CredentialLookup::Missing => Err(ProviderError::missing_credential()),
        CredentialLookup::NotUnicode => Err(ProviderError::unreadable_credential()),
        CredentialLookup::Found(credential) => {
            match provider_headers(credential.as_str()) {
                Err(error) => Err(error),
                Ok(headers) => Ok(
                    OutboundCall {
                        method: String::from_str(METHOD),
                        url: String::from_str(ENDPOINT),
                        headers,
                        body: envelope.to_json(),
                    },
                ),
            }
        },
    }
}

/// What an [`Exchange`] holds.
pub struct ExchangeView {
    pub phase: Phase,
    pub envelope: ProviderRequestView,
}

/// One call to the provider, from the lookup of the credential to the outcome.
pub struct Exchange {
    phase: Phase,
    envelope: ProviderRequest,
}

impl View for Exchange {
    type V = ExchangeView;

    closed spec fn view(&self) -> ExchangeView {
        ExchangeView { phase: self.phase, envelope: self.envelope@ }
    }
}

impl Exchange {
    /// A call for `envelope` of which nothing has happened yet. The driver
    /// starts by looking up the credential.
    pub fn new(envelope: ProviderRequest) -> (exchange: Exchange)
        ensures
            exchange@ == (ExchangeView { phase: Phase::AwaitingCredential, envelope: envelope@ }),
    {
        Exchange { phase: Phase::AwaitingCredential, envelope }
    }

    /// Where the exchange stands.
    pub fn phase(&self) -> (phase: Phase)
        ensures
            phase == self@.phase,
    {
        self.phase
    }

    /// The envelope that the call is made for.
    pub fn envelope(&self) -> (envelope: &ProviderRequest)
        ensures
            envelope@ == self@.envelope,
    {
        &self.envelope
    }

    /// Takes the driver's report and says what to do next. An event that does
    /// not answer what the exchange waits for changes nothing and gets no
    /// action.
    pub fn advance(&mut self, event: Event) -> (action: Option<Action>)
        ensures
            final(self)@.envelope == old(self)@.envelope,
            final(self)@.phase == next_phase(old(self)@.phase, old(self)@.envelope, event@),
            taken_view(action) == next_action(old(self)@.phase, old(self)@.envelope, event@),
    {
        match self.phase {
            Phase::AwaitingCredential => match event {
                Event::Credential(lookup) => match prepare(lookup, &self.envelope) {
                    Ok(call) => {
                        self.phase = Phase::AwaitingResponse;
                        Some(Action::Send(call))
                    },
                    Err(error) => {
                        self.phase = Phase::Finished;
                        Some(Action::Finish(Err(error)))
                    },
                },
                _ => None,
            },
            Phase::AwaitingResponse => match event {
                Event::SendFailed(why) => {
                    self.phase = Phase::Finished;
                    Some(Action::Finish(Err(ProviderError::new(Cause::SendFailed, why))))
                },
                Event::Responded(_) => {
                    self.phase = Phase::AwaitingBody;
                    Some(Action::ReadBody)
                },
                _ => None,
            },
            Phase::AwaitingBody => match event {
                Event::BodyFailed(why) => {
                    self.phase = Phase::Finished;
                    Some(Action::Finish(Err(ProviderError::new(Cause::BodyUnreadable, why))))
                },
                Event::Body(text) => {
                    self.phase = Phase::Finished;
                    Some(Action::Finish(Ok(text)))
                },
                _ => None,
            },
            Phase::Finished => None,
        }
    }
}

/// Whether `event` brings a credential that a header can carry.
pub open spec fn brings_credential(event: EventView) -> bool {
    event matches EventView::Credential(LookupView::Found(credential)) && is_header_text(
        credential,
    )
}

/// How many calls are handed out for sending while an exchange that stands in
/// `phase` is given `events` one after another.
pub open spec fn sends(phase: Phase, envelope: ProviderRequestView, events: Seq<EventView>) -> nat
    decreases events.len(),
{
    if events.len() == 0 {
        0
    } else {
        let later = sends(next_phase(phase, envelope, events[0]), envelope, events.drop_first());
        if next_action(phase, envelope, events[0]) matches Some(ActionView::Send(_)) {
            1 + later
        } else {
            later
        }
    }
}

/// The outcome that an exchange standing in `phase` hands out while it is
/// given `events` one after another, if it hands one out.
pub open spec fn outcome(phase: Phase, envelope: ProviderRequestView, events: Seq<EventView>) -> Option<
    Result<Seq<char>, ProviderErrorView>,
>
    decreases events.len(),
{
    if events.len() == 0 {
        None
    } else {
        match next_action(phase, envelope, events[0]) {
            Some(ActionView::Finish(result)) => Some(result),
            _ => outcome(next_phase(phase, envelope, events[0]), envelope, events.drop_first()),
        }
    }
}

/// Once an exchange has left its first phase, nothing is sent any more.
proof fn lemma_no_send_after_start(
    phase: Phase,
    envelope: ProviderRequestView,
    events: Seq<EventView>,
)
    requires
        phase != Phase::AwaitingCredential,
    ensures
        sends(phase, envelope, events) == 0,
    decreases events.len(),
{
    if events.len() > 0 {
        lemma_no_send_after_start(
            next_phase(phase, envelope, events[0]),
            envelope,
            events.drop_first(),
        );
    }
}

/// A call is sent at most once, whatever the driver reports and in whatever
/// order.
pub proof fn law_single_send(envelope: ProviderRequestView, events: Seq<EventView>)
    ensures
        sends(Phase::AwaitingCredential, envelope, events) <= 1,
    decreases events.len(),
{
    if events.len() > 0 {
        let next = next_phase(Phase::AwaitingCredential, envelope, events[0]);
        if next == Phase::AwaitingCredential {
            law_single_send(envelope, events.drop_first());
        } else {
            lemma_no_send_after_start(next, envelope, events.drop_first());
        }
    }
}

/// Nothing is sent unless the driver reports a credential that a header can
/// carry: not when the credential is missing, not when it is not text, not
/// when it holds a character that no header value may hold.
pub proof fn law_no_send_without_credential(envelope: ProviderRequestView, events: Seq<EventView>)
    requires
        forall|i: int| 0 <= i < events.len() ==> !brings_credential(#[trigger] events[i]),
    ensures
        sends(Phase::AwaitingCredential, envelope, events) == 0,
    decreases events.len(),
{
    if events.len() > 0 {
        let rest = events.drop_first();
        assert(!brings_credential(events[0]));
        assert forall|i: int| 0 <= i < rest.len() implies !brings_credential(#[trigger] rest[i]) by {
            assert(rest[i] == events[i + 1]);
        }
        let next = next_phase(Phase::AwaitingCredential, envelope, events[0]);
        if next == Phase::AwaitingCredential {
            law_no_send_without_credential(envelope, rest);
        } else {
            lemma_no_send_after_start(next, envelope, rest);
        }
    }
}

/// A finished exchange takes no further event.
pub proof fn law_finished_is_final(envelope: ProviderRequestView, event: EventView)
    ensures
        step(Phase::Finished, envelope, event) is None,
{
}

/// A credential that is not set, or is not text, ends the call at once with a
/// configuration failure, and nothing has been sent.
pub proof fn law_unavailable_credential(envelope: ProviderRequestView, lookup: LookupView)
    requires
        lookup is Missing || lookup is NotUnicode,
    ensures
        outcome(Phase::AwaitingCredential, envelope, seq![EventView::Credential(lookup)])
            matches Some(Err(error)) && error.cause == Cause::CredentialUnavailable && kind_of(
            error.cause,
        ) == ErrorKind::Configuration,
        sends(Phase::AwaitingCredential, envelope, seq![EventView::Credential(lookup)]) == 0,
{
    let events = seq![EventView::Credential(lookup)];
    assert(events.drop_first() =~= Seq::<EventView>::empty());
    assert(sends(Phase::Finished, envelope, events.drop_first()) == 0);
}

/// A credential with a character that no header value may hold ends the call
/// at once with a protocol failure, and nothing has been sent.
pub proof fn law_malformed_credential(envelope: ProviderRequestView, credential: Seq<char>)
    requires
        !is_header_text(credential),
    ensures
        outcome(
            Phase::AwaitingCredential,
            envelope,
            seq![EventView::Credential(LookupView::Found(credential))],
        ) matches Some(Err(error)) && error.cause == Cause::CredentialMalformed && kind_of(
            error.cause,
        ) == ErrorKind::Protocol,
        sends(
            Phase::AwaitingCredential,
            envelope,
            seq![EventView::Credential(LookupView::Found(credential))],
        ) == 0,
{
    let events = seq![EventView::Credential(LookupView::Found(credential))];
    assert(events.drop_first() =~= Seq::<EventView>::empty());
    assert(sends(Phase::Finished, envelope, events.drop_first()) == 0);
}

/// When the request cannot be sent, the call fails with a transport failure
/// whose description is the reason that the driver gave.
pub proof fn law_send_failure(
    envelope: ProviderRequestView,
    credential: Seq<char>,
    why: Seq<char>,
)
    requires
        is_header_text(credential),
    ensures
        outcome(
            Phase::AwaitingCredential,
            envelope,
            seq![EventView::Credential(LookupView::Found(credential)), EventView::SendFailed(why)],
        ) matches Some(Err(error)) && error.cause == Cause::SendFailed && kind_of(error.cause)
            == ErrorKind::Transport && error.description == why,
{
    let events = seq![
        EventView::Credential(LookupView::Found(credential)),
        EventView::SendFailed(why),
    ];
    let rest = events.drop_first();
    assert(rest =~= seq![EventView::SendFailed(why)]);
    assert(outcome(Phase::AwaitingResponse, envelope, rest) == Some(
        Err::<Seq<char>, ProviderErrorView>(
            ProviderErrorView { cause: Cause::SendFailed, description: why },
        ),
    ));
}

/// When the response body cannot be read to its end, the call fails with a
/// transport failure whose description is the reason that the driver gave,
/// whatever the status code of the response.
pub proof fn law_body_failure(
    envelope: ProviderRequestView,
    credential: Seq<char>,
    status: u16,
    why: Seq<char>,
)
    requires
        is_header_text(credential),
    ensures
        outcome(
            Phase::AwaitingCredential,
            envelope,
            seq![
                EventView::Credential(LookupView::Found(credential)),
                EventView::Responded(status),
                EventView::BodyFailed(why),
            ],
        ) matches Some(Err(error)) && error.cause == Cause::BodyUnreadable && kind_of(error.cause)
            == ErrorKind::Transport && error.description == why,
{
    let events = seq![
        EventView::Credential(LookupView::Found(credential)),
        EventView::Responded(status),
        EventView::BodyFailed(why),
    ];
    let rest = events.drop_first();
    let last = rest.drop_first();
    assert(rest =~= seq![EventView::Responded(status), EventView::BodyFailed(why)]);
    assert(last =~= seq![EventView::BodyFailed(why)]);
    assert(outcome(Phase::AwaitingBody, envelope, last) == Some(
        Err::<Seq<char>, ProviderErrorView>(
            ProviderErrorView { cause: Cause::BodyUnreadable, description: why },
        ),
    ));
    assert(outcome(Phase::AwaitingResponse, envelope, rest) == outcome(
        Phase::AwaitingBody,
        envelope,
        last,
    ));
}

/// With a credential that a header can carry and a provider that answers, the
/// call is sent once, to the fixed address, with the three headers and the
/// JSON body of the envelope, and its outcome is the response body exactly as
/// it was read, whatever the status code of the response.
pub proof fn law_passthrough(
    envelope: ProviderRequestView,
    credential: Seq<char>,
    status: u16,
    body: Seq<char>,
)
    requires
        is_header_text(credential),
    ensures
        next_action(
            Phase::AwaitingCredential,
            envelope,
            EventView::Credential(LookupView::Found(credential)),
        ) == Some(ActionView::Send(call_for(credential, envelope))),
        sends(
            Phase::AwaitingCredential,
            envelope,
            seq![
                EventView::Credential(LookupView::Found(credential)),
                EventView::Responded(status),
                EventView::Body(body),
            ],
        ) == 1,
        outcome(
            Phase::AwaitingCredential,
            envelope,
            seq![
                EventView::Credential(LookupView::Found(credential)),
                EventView::Responded(status),
                EventView::Body(body),
            ],
        ) == Some(Ok::<Seq<char>, ProviderErrorView>(body)),
{
    let events = seq![
        EventView::Credential(LookupView::Found(credential)),
        EventView::Responded(status),
        EventView::Body(body),
    ];
    let rest = events.drop_first();
    let last = rest.drop_first();
    assert(rest =~= seq![EventView::Responded(status), EventView::Body(body)]);
    assert(last =~= seq![EventView::Body(body)]);
    assert(outcome(Phase::AwaitingBody, envelope, last) == Some(
        Ok::<Seq<char>, ProviderErrorView>(body),
    ));
    assert(outcome(Phase::AwaitingResponse, envelope, rest) == outcome(
        Phase::AwaitingBody,
        envelope,
        last,
    ));
    lemma_no_send_after_start(Phase::AwaitingResponse, envelope, rest);
}

} // verus!
