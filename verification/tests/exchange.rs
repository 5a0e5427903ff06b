use provider_gateway::client::{
    prepare, Action, CredentialLookup, Event, Exchange, Phase, CREDENTIAL_KEY, ENDPOINT, METHOD,
};
use provider_gateway::envelope::{Message, ProviderRequest};
use provider_gateway::error::{describe_chain, Cause, ErrorKind, ProviderError};
use provider_gateway::gateway::{
    begin, persistence_failure_reply, provider_reply, render, STATUS_OK, STATUS_SERVER_ERROR,
};

const MODEL: &str = "model-a";

/// A provider that is never reached or answers with a fixed response.
struct Stub {
    credential: CredentialLookup,
    response: Result<(u16, Result<String, String>), String>,
    calls: usize,
}

fn found(text: &str) -> CredentialLookup {
    CredentialLookup::Found(text.to_string())
}

fn copy_of(lookup: &CredentialLookup) -> CredentialLookup {
    match lookup {
        CredentialLookup::Found(text) => CredentialLookup::Found(text.clone()),
        CredentialLookup::Missing => CredentialLookup::Missing,
        CredentialLookup::NotUnicode => CredentialLookup::NotUnicode,
    }
}

/// Drives an exchange to its end against the stub, as the gateway drives it
/// against the network.
fn drive(mut exchange: Exchange, stub: &mut Stub) -> Result<String, ProviderError> {
    let mut event = Event::Credential(copy_of(&stub.credential));
    loop {
        match exchange.advance(event).unwrap() {
            Action::Send(call) => {
                stub.calls += 1;
                assert_eq!(call.method, METHOD);
                assert_eq!(call.url, ENDPOINT);
                event = match &stub.response {
                    Ok((status, _)) => Event::Responded(*status),
                    Err(why) => Event::SendFailed(why.clone()),
                };
            }
            Action::ReadBody => {
                event = match &stub.response {
                    Ok((_, Ok(body))) => Event::Body(body.clone()),
                    Ok((_, Err(why))) => Event::BodyFailed(why.clone()),
                    Err(_) => unreachable!(),
                };
            }
            Action::Finish(outcome) => {
                assert_eq!(exchange.phase(), Phase::Finished);
                return outcome;
            }
        }
    }
}

fn handle(stub: &mut Stub) -> String {
    render(drive(begin(MODEL), stub))
}

#[test]
fn successful_call_returns_the_body_verbatim() {
    let body = "{\"id\":\"msg_1\",\"content\":[{\"text\":\"hi\"}]}";
    let mut stub = Stub {
        credential: found("test-key"),
        response: Ok((200, Ok(body.to_string()))),
        calls: 0,
    };
    assert_eq!(handle(&mut stub), body);
    assert_eq!(stub.calls, 1);
}

#[test]
fn unset_credential_is_reported_in_the_body() {
    let mut stub = Stub {
        credential: CredentialLookup::Missing,
        response: Ok((200, Ok("never read".to_string()))),
        calls: 0,
    };
    let body = handle(&mut stub);
    assert_eq!(body, "Error: missing credential: environment variable not found");
    assert!(body.starts_with("Error: "));
    assert!(body.contains("missing credential"));
    assert_eq!(stub.calls, 0);
}

#[test]
fn provider_error_status_is_passed_through() {
    let body = "{\"error\":\"overloaded\"}";
    let mut stub = Stub {
        credential: found("test-key"),
        response: Ok((500, Ok(body.to_string()))),
        calls: 0,
    };
    let outcome = drive(begin(MODEL), &mut stub);
    assert_eq!(outcome, Ok(body.to_string()));
    assert_eq!(render(outcome), body);
    assert_eq!(stub.calls, 1);
}

#[test]
fn body_passes_through_for_every_status() {
    let statuses: Vec<u16> = vec![100, 200, 204, 301, 400, 401, 404, 429, 500, 503, 599];
    for status in statuses {
        let body = format!("status {} \u{e9}\n\u{0}", status);
        let mut stub = Stub {
            credential: found("k"),
            response: Ok((status, Ok(body.clone()))),
            calls: 0,
        };
        assert_eq!(drive(begin(MODEL), &mut stub), Ok(body));
    }
}

#[test]
fn missing_credential_fails_before_any_network_call() {
    let mut stub = Stub {
        credential: CredentialLookup::Missing,
        response: Err("unreachable".to_string()),
        calls: 0,
    };
    let error = drive(begin(MODEL), &mut stub).unwrap_err();
    assert_eq!(error.kind(), ErrorKind::Configuration);
    assert_eq!(error.cause, Cause::CredentialUnavailable);
    assert_eq!(stub.calls, 0);
}

#[test]
fn credential_that_is_not_text_fails_before_any_network_call() {
    let mut stub = Stub {
        credential: CredentialLookup::NotUnicode,
        response: Err("unreachable".to_string()),
        calls: 0,
    };
    let error = drive(begin(MODEL), &mut stub).unwrap_err();
    assert_eq!(error.kind(), ErrorKind::Configuration);
    assert_eq!(
        error.description(),
        "invalid credential: environment variable was not valid unicode"
    );
    assert_eq!(stub.calls, 0);
}

#[test]
fn credential_with_a_newline_fails_before_any_network_call() {
    let mut stub = Stub {
        credential: found("test\nkey"),
        response: Ok((200, Ok("never read".to_string()))),
        calls: 0,
    };
    let error = drive(begin(MODEL), &mut stub).unwrap_err();
    assert_eq!(error.kind(), ErrorKind::Protocol);
    assert_eq!(error.cause, Cause::CredentialMalformed);
    assert!(!error.description().contains("test"));
    assert_eq!(stub.calls, 0);
}

#[test]
fn unreachable_endpoint_is_a_transport_failure() {
    let why = "error sending request: connection refused";
    let mut stub = Stub { credential: found("test-key"), response: Err(why.to_string()), calls: 0 };
    let error = drive(begin(MODEL), &mut stub).unwrap_err();
    assert_eq!(error.kind(), ErrorKind::Transport);
    assert_eq!(error.cause, Cause::SendFailed);
    assert!(error.description().contains("connection refused"));
    assert_eq!(error.description(), why);
    assert_eq!(stub.calls, 1);
}

#[test]
fn description_of_a_chain_includes_the_underlying_cause() {
    let chain = vec![
        "error sending request for url (https://api.anthropic.com/v1/messages)".to_string(),
        "client error (Connect)".to_string(),
        "tcp connect error".to_string(),
        "Connection refused (os error 111)".to_string(),
    ];
    let description = describe_chain(&chain);
    assert_eq!(
        description,
        "error sending request for url (https://api.anthropic.com/v1/messages): client error (Connect): tcp connect error: Connection refused (os error 111)"
    );
    for message in &chain {
        assert!(description.contains(message.as_str()));
    }
    assert_eq!(describe_chain(&vec!["timed out".to_string()]), "timed out");
    assert_eq!(describe_chain(&Vec::new()), "");

    let mut stub = Stub { credential: found("test-key"), response: Err(description.clone()), calls: 0 };
    let error = drive(begin(MODEL), &mut stub).unwrap_err();
    assert_eq!(error.kind(), ErrorKind::Transport);
    assert!(error.description().ends_with("Connection refused (os error 111)"));
}

#[test]
fn unreadable_body_is_a_transport_failure() {
    let why = "error decoding response body";
    let mut stub = Stub {
        credential: found("test-key"),
        response: Ok((200, Err(why.to_string()))),
        calls: 0,
    };
    let error = drive(begin(MODEL), &mut stub).unwrap_err();
    assert_eq!(error.kind(), ErrorKind::Transport);
    assert_eq!(error.cause, Cause::BodyUnreadable);
    assert_eq!(error.description(), why);
    assert_eq!(render(Err(error)), "Error: error decoding response body");
}

#[test]
fn the_call_that_is_sent_is_the_documented_one() {
    let mut exchange = begin(MODEL);
    let action = exchange.advance(Event::Credential(found("test-key"))).unwrap();
    assert_eq!(exchange.phase(), Phase::AwaitingResponse);
    match action {
        Action::Send(call) => {
            assert_eq!(call.method, "POST");
            assert_eq!(call.url, "https://api.anthropic.com/v1/messages");
            assert_eq!(call.headers.len(), 3);
            assert_eq!(call.headers.get("x-api-key").unwrap().as_bytes(), b"test-key");
            assert_eq!(call.headers.get("anthropic-version").unwrap().as_bytes(), b"2023-06-01");
            assert_eq!(call.headers.get("content-type").unwrap().as_bytes(), b"application/json");
            assert_eq!(call.body, ProviderRequest::greeting(MODEL).to_json());
            let parsed: serde_json::Value = serde_json::from_str(&call.body).unwrap();
            assert_eq!(parsed.get("max_tokens").unwrap().as_u64().unwrap(), 1024);
        }
        _ => panic!("a call was expected"),
    }
}

#[test]
fn the_call_carries_the_envelope_it_was_made_for() {
    let request =
        ProviderRequest::new("m", 5, vec![Message::new("user", "a"), Message::new("user", "b")])
            .unwrap();
    let body = request.to_json();
    let exchange = Exchange::new(request);
    assert_eq!(exchange.envelope().model(), "m");
    let mut exchange = exchange;
    match exchange.advance(Event::Credential(found("k"))) {
        Some(Action::Send(call)) => assert_eq!(call.body, body),
        _ => panic!("a call was expected"),
    }
}

#[test]
fn prepare_decides_from_the_lookup() {
    let request = ProviderRequest::greeting(MODEL);
    assert!(prepare(found("ok"), &request).is_ok());
    assert_eq!(
        prepare(CredentialLookup::Missing, &request).err().unwrap(),
        ProviderError::missing_credential()
    );
    assert_eq!(
        prepare(CredentialLookup::NotUnicode, &request).err().unwrap(),
        ProviderError::unreadable_credential()
    );
    assert_eq!(
        prepare(found("\n"), &request).err().unwrap().cause,
        Cause::CredentialMalformed
    );
}

#[test]
fn events_out_of_turn_change_nothing() {
    let mut exchange = begin(MODEL);
    assert_eq!(exchange.phase(), Phase::AwaitingCredential);
    assert!(exchange.advance(Event::Responded(200)).is_none());
    assert!(exchange.advance(Event::Body("x".to_string())).is_none());
    assert!(exchange.advance(Event::SendFailed("x".to_string())).is_none());
    assert!(exchange.advance(Event::BodyFailed("x".to_string())).is_none());
    assert_eq!(exchange.phase(), Phase::AwaitingCredential);

    assert!(exchange.advance(Event::Credential(found("k"))).is_some());
    assert_eq!(exchange.phase(), Phase::AwaitingResponse);
    assert!(exchange.advance(Event::Credential(found("k"))).is_none());
    assert!(exchange.advance(Event::Body("x".to_string())).is_none());
    assert_eq!(exchange.phase(), Phase::AwaitingResponse);

    assert!(matches!(exchange.advance(Event::Responded(418)), Some(Action::ReadBody)));
    assert_eq!(exchange.phase(), Phase::AwaitingBody);
    assert!(exchange.advance(Event::Responded(200)).is_none());
    assert!(exchange.advance(Event::Credential(CredentialLookup::Missing)).is_none());
    assert_eq!(exchange.phase(), Phase::AwaitingBody);
}

#[test]
fn finished_exchange_takes_nothing_more() {
    let mut exchange = begin(MODEL);
    assert!(matches!(
        exchange.advance(Event::Credential(CredentialLookup::Missing)),
        Some(Action::Finish(Err(_)))
    ));
    assert_eq!(exchange.phase(), Phase::Finished);
    assert!(exchange.advance(Event::Credential(found("k"))).is_none());
    assert!(exchange.advance(Event::Responded(200)).is_none());
    assert!(exchange.advance(Event::Body("x".to_string())).is_none());
    assert_eq!(exchange.phase(), Phase::Finished);
}

#[test]
fn a_call_is_sent_at_most_once() {
    let mut exchange = begin(MODEL);
    let mut sent = 0;
    let reports = vec![
        Event::Responded(200),
        Event::Credential(found("k")),
        Event::Credential(found("k")),
        Event::SendFailed("down".to_string()),
        Event::Credential(found("k")),
        Event::Responded(200),
    ];
    for event in reports {
        if let Some(Action::Send(_)) = exchange.advance(event) {
            sent += 1;
        }
    }
    assert_eq!(sent, 1);
    assert_eq!(exchange.phase(), Phase::Finished);
}

#[test]
fn render_prefixes_failures() {
    assert_eq!(render(Ok("plain".to_string())), "plain");
    assert_eq!(render(Ok(String::new())), "");
    assert_eq!(
        render(Err(ProviderError::new(Cause::SendFailed, "timed out".to_string()))),
        "Error: timed out"
    );
    assert_eq!(
        render(Err(ProviderError::missing_credential())),
        "Error: missing credential: environment variable not found"
    );
}

#[test]
fn provider_route_always_answers_ok() {
    let good = provider_reply(Ok("body".to_string()));
    assert_eq!(good.status, 200);
    assert_eq!(good.status, STATUS_OK);
    assert_eq!(good.body, "body");
    let bad = provider_reply(Err(ProviderError::new(Cause::SendFailed, "down".to_string())));
    assert_eq!(bad.status, 200);
    assert_eq!(bad.body, "Error: down");
}

#[test]
fn data_route_reports_failures_as_server_errors() {
    let reply = persistence_failure_reply("pool timed out".to_string());
    assert_eq!(reply.status, 500);
    assert_eq!(reply.status, STATUS_SERVER_ERROR);
    assert_eq!(reply.body, "pool timed out");
}

#[test]
fn causes_fall_into_their_classes() {
    assert_eq!(Cause::CredentialUnavailable.kind(), ErrorKind::Configuration);
    assert_eq!(Cause::CredentialMalformed.kind(), ErrorKind::Protocol);
    assert_eq!(Cause::SendFailed.kind(), ErrorKind::Transport);
    assert_eq!(Cause::BodyUnreadable.kind(), ErrorKind::Transport);
}

#[test]
fn error_copies_are_equal() {
    let error = ProviderError::new(Cause::BodyUnreadable, "cut short".to_string());
    let copy = error.clone();
    assert_eq!(copy, error);
    assert_eq!(copy.description(), "cut short");
    assert_eq!(copy.kind(), ErrorKind::Transport);
}

#[test]
fn credential_key_is_the_documented_one() {
    assert_eq!(CREDENTIAL_KEY, "ANTHROPIC_API_KEY");
}
