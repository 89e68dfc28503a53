use tdlib_client::authorization::{AuthorizationState, TD};
use tdlib_client::client::{Client, ClientBuilder, RawApi};
use tdlib_client::dispatch::{LoopAction, Routed};
use tdlib_client::errors::RTDError;
use tdlib_client::frame::Frame;
use tdlib_client::handshake::{
    handle_auth_state, AuthAction, AuthStateHandler, ClientState, Function, Handshake, SecretKind,
    TdlibParameters, TypeInAuthStateHandler,
};

struct FixedHandler;

impl AuthStateHandler for FixedHandler {
    fn handle_wait_code(&self, _wait_code: &Frame) -> String {
        "12345".to_string()
    }

    fn handle_encryption_key(&self, _wait_encryption_key: &Frame) -> String {
        "key".to_string()
    }

    fn handle_wait_password(&self, _wait_password: &Frame) -> String {
        "password".to_string()
    }

    fn handle_wait_phone_number(&self, _wait_phone_number: &Frame) -> String {
        "+15550100".to_string()
    }
}

fn parameters() -> TdlibParameters {
    TdlibParameters {
        api_id: 17,
        api_hash: "hash".to_string(),
        database_directory: "db".to_string(),
        ..TdlibParameters::default()
    }
}

fn client() -> Client {
    Client::new(1, parameters())
}

fn update(state: &str) -> String {
    format!(
        r#"{{"@type":"updateAuthorizationState","authorization_state":{{"@type":"authorizationState{}"}}}}"#,
        state
    )
}

// Feeds one received text through the dispatch step and, for an
// authorization update, through the handshake; collects what is to be sent.
fn feed(client: &mut Client, text: &str, sent: &mut Vec<Function>) -> AuthAction {
    match client.dispatch(Some(text)) {
        Routed::Authorization(frame) => {
            let action = client.advance(frame.authorization_state().unwrap());
            let parameters = client.tdlib_parameters().clone();
            if let Some(request) = handle_auth_state(&FixedHandler, action, &frame, &parameters) {
                sent.push(request);
            }
            action
        }
        other => panic!("not an authorization update: {:?}", other),
    }
}

#[test]
fn test_request_flow() {
    let mut client = client();
    let call = client.call(Some("X"), "chats").unwrap();

    let chats: serde_json::Value =
        serde_json::from_str(r#"{"@type":"chats","total_count":3,"chat_ids":[1,2,3]}"#).unwrap();
    let mut chats_object = chats.as_object().unwrap().clone();
    chats_object.insert("@extra".to_string(), serde_json::Value::String(call.token().to_string()));
    let to_receive = serde_json::to_string(&chats_object).unwrap();

    assert_eq!(client.resolve(&call), None);
    assert_eq!(client.dispatch(Some(&to_receive)), Routed::Delivered);
    let result = client.resolve(&call).unwrap().unwrap();
    let payload: serde_json::Value = serde_json::from_str(result.raw()).unwrap();
    let chat_ids: Vec<i64> =
        payload["chat_ids"].as_array().unwrap().iter().map(|id| id.as_i64().unwrap()).collect();
    assert_eq!(chat_ids, vec![1, 2, 3]);
}

#[test]
fn call_returns_the_response_with_its_token() {
    let mut client = client();
    let call = client.call(Some("X"), "ok").unwrap();
    assert_eq!(call.token(), "X");
    assert_eq!(call.expects(), "ok");
    let text = r#"{"@extra":"X","@type":"ok"}"#;
    assert_eq!(client.dispatch(Some(text)), Routed::Delivered);
    assert_eq!(client.resolve(&call), Some(Ok(Frame::decode(text).unwrap())));
    assert_eq!(client.resolve(&call), Some(Err(RTDError::Cancelled)));
}

#[test]
fn call_fails_with_the_remote_error() {
    let mut client = client();
    let call = client.call(Some("X"), "chats").unwrap();
    assert_eq!(
        client.dispatch(Some(r#"{"@extra":"X","@type":"error","message":"m"}"#)),
        Routed::Delivered
    );
    assert_eq!(client.resolve(&call), Some(Err(RTDError::RemoteError("m".to_string()))));
    assert_eq!(client.call(Some("X"), "chats").map(|c| c.token().to_string()), Ok("X".to_string()));
}

#[test]
fn call_fails_on_an_unexpected_discriminant() {
    let mut client = client();
    let call = client.call(Some("X"), "chats").unwrap();
    assert_eq!(client.dispatch(Some(r#"{"@extra":"X","@type":"user"}"#)), Routed::Delivered);
    assert_eq!(client.resolve(&call), Some(Err(RTDError::ProtocolError)));
}

#[test]
fn call_needs_a_token() {
    let mut client = client();
    assert_eq!(
        client.call(None, "ok"),
        Err(RTDError::BadRequest("request carries no correlation token".to_string()))
    );
}

#[test]
fn call_refuses_a_token_in_use() {
    let mut client = client();
    let first = client.call(Some("X"), "ok").unwrap();
    assert_eq!(client.call(Some("X"), "ok"), Err(RTDError::AlreadySubscribed));
    assert_eq!(client.resolve(&first), None);
}

#[test]
fn calls_are_answered_in_any_order() {
    let mut client = client();
    let a = client.call(Some("a"), "ok").unwrap();
    let b = client.call(Some("b"), "user").unwrap();
    assert_eq!(client.dispatch(Some(r#"{"@type":"user","@extra":"b","id":2}"#)), Routed::Delivered);
    assert_eq!(client.resolve(&a), None);
    assert_eq!(client.dispatch(None), Routed::Idle);
    assert_eq!(client.dispatch(Some(r#"{"@type":"ok","@extra":"a"}"#)), Routed::Delivered);
    assert_eq!(client.resolve(&a).unwrap().unwrap().td_type(), "ok");
    assert_eq!(client.resolve(&b).unwrap().unwrap().raw(), r#"{"@type":"user","@extra":"b","id":2}"#);
}

#[test]
fn a_cancelled_call_leaves_its_response_to_the_update_sink() {
    let mut client = client();
    let call = client.call(Some("X"), "ok").unwrap();
    client.cancel(&call);
    assert_eq!(client.resolve(&call), Some(Err(RTDError::Cancelled)));
    let text = r#"{"@type":"ok","@extra":"X"}"#;
    assert_eq!(client.dispatch(Some(text)), Routed::Update(Frame::decode(text).unwrap()));
}

#[test]
fn a_call_that_could_not_be_sent_fails_and_is_gone() {
    let mut client = client();
    let call = client.call(Some("X"), "ok").unwrap();
    assert_eq!(client.send_failed(&call), RTDError::TransportFailure);
    assert_eq!(client.resolve(&call), Some(Err(RTDError::Cancelled)));
    assert!(client.call(Some("X"), "ok").is_ok());
}

#[test]
fn dispatch_routes_what_no_call_awaits() {
    let mut client = client();
    let text = r#"{"@type":"updateNewMessage"}"#;
    assert_eq!(client.dispatch(Some(text)), Routed::Update(Frame::decode(text).unwrap()));
    let phase = update("WaitTdlibParameters");
    assert_eq!(client.dispatch(Some(&phase)), Routed::Authorization(Frame::decode(&phase).unwrap()));
    assert_eq!(client.next_action(), LoopAction::Poll);
}

#[test]
fn dispatch_fails_the_client_on_an_undecodable_text() {
    let mut client = client();
    let call = client.call(Some("X"), "ok").unwrap();
    assert_eq!(client.dispatch(Some("{")), Routed::Fatal(RTDError::ProtocolError));
    assert_eq!(client.state(), &ClientState::Error("protocol error".to_string()));
    assert!(client.is_stopped());
    assert_eq!(client.next_action(), LoopAction::Halt);
    assert_eq!(client.resolve(&call), Some(Err(RTDError::Cancelled)));
    assert_eq!(
        client.wait_for_auth(),
        Ok(Some(ClientState::Error("protocol error".to_string())))
    );
}

#[test]
fn stop_halts_the_loop_and_cancels_waiting_calls() {
    let mut client = client();
    let waiting = client.call(Some("a"), "ok").unwrap();
    let matched = client.call(Some("b"), "ok").unwrap();
    let text = r#"{"@type":"ok","@extra":"b"}"#;
    assert_eq!(client.dispatch(Some(text)), Routed::Delivered);
    assert_eq!(client.next_action(), LoopAction::Poll);
    assert!(!client.is_stopped());

    client.stop();
    assert!(client.is_stopped());
    assert_eq!(client.next_action(), LoopAction::Halt);
    assert_eq!(client.resolve(&waiting), Some(Err(RTDError::Cancelled)));
    assert_eq!(client.resolve(&matched), Some(Ok(Frame::decode(text).unwrap())));
    assert_eq!(client.call(Some("c"), "ok"), Err(RTDError::Cancelled));

    let late = r#"{"@type":"ok","@extra":"a"}"#;
    assert_eq!(client.dispatch(Some(late)), Routed::Update(Frame::decode(late).unwrap()));
    assert_eq!(client.next_action(), LoopAction::Halt);
    client.stop();
    assert_eq!(client.next_action(), LoopAction::Halt);
    assert_eq!(client.state(), &ClientState::Uninitialized);
}

#[test]
fn handshake_sends_the_four_requests_in_order_and_opens() {
    let mut client = client();
    let mut sent = Vec::new();
    assert_eq!(feed(&mut client, &update("WaitTdlibParameters"), &mut sent), AuthAction::SendParameters);
    assert_eq!(client.wait_for_auth(), Ok(None));
    assert_eq!(
        feed(&mut client, &update("WaitEncryptionKey"), &mut sent),
        AuthAction::Ask(SecretKind::EncryptionKey)
    );
    assert_eq!(
        feed(&mut client, &update("WaitPhoneNumber"), &mut sent),
        AuthAction::Ask(SecretKind::PhoneNumber)
    );
    assert_eq!(feed(&mut client, &update("WaitCode"), &mut sent), AuthAction::Ask(SecretKind::Code));
    assert_eq!(client.wait_for_auth(), Ok(None));
    assert_eq!(feed(&mut client, &update("Ready"), &mut sent), AuthAction::SignalReady);
    assert_eq!(
        sent,
        vec![
            Function::SetTdlibParameters(parameters()),
            Function::CheckDatabaseEncryptionKey("key".to_string()),
            Function::SetAuthenticationPhoneNumber("+15550100".to_string()),
            Function::CheckAuthenticationCode("12345".to_string()),
        ]
    );
    let names: Vec<&str> = sent.iter().map(|request| request.td_name()).collect();
    assert_eq!(
        names,
        vec![
            "setTdlibParameters",
            "checkDatabaseEncryptionKey",
            "setAuthenticationPhoneNumber",
            "checkAuthenticationCode",
        ]
    );
    assert!(sent.iter().all(|request| request.expects() == "ok"));
    assert_eq!(client.state(), &ClientState::Opened);
    assert_eq!(client.wait_for_auth(), Ok(Some(ClientState::Opened)));
}

#[test]
fn handshake_asks_for_the_password() {
    let mut client = client();
    let mut sent = Vec::new();
    assert_eq!(
        feed(&mut client, &update("WaitPassword"), &mut sent),
        AuthAction::Ask(SecretKind::Password)
    );
    assert_eq!(sent, vec![Function::CheckAuthenticationPassword("password".to_string())]);
    assert_eq!(
        Function::answer(SecretKind::Password, "p".to_string()),
        Function::CheckAuthenticationPassword("p".to_string())
    );
    assert_eq!(
        Function::answer(SecretKind::Code, "c".to_string()),
        Function::CheckAuthenticationCode("c".to_string())
    );
    assert_eq!(
        Function::answer(SecretKind::PhoneNumber, "n".to_string()),
        Function::SetAuthenticationPhoneNumber("n".to_string())
    );
    assert_eq!(
        Function::answer(SecretKind::EncryptionKey, "k".to_string()),
        Function::CheckDatabaseEncryptionKey("k".to_string())
    );
    assert_eq!(Function::answer(SecretKind::Password, "p".to_string()).td_name(), "checkAuthenticationPassword");
}

#[test]
fn a_second_ready_is_an_error() {
    let mut client = client();
    let mut sent = Vec::new();
    assert_eq!(feed(&mut client, &update("Ready"), &mut sent), AuthAction::SignalReady);
    assert_eq!(feed(&mut client, &update("Ready"), &mut sent), AuthAction::Fail);
    assert_eq!(client.state(), &ClientState::Error("received Opened state again".to_string()));
    assert_eq!(
        client.wait_for_auth(),
        Ok(Some(ClientState::Error("received Opened state again".to_string())))
    );
    assert_eq!(
        client.wait_for_auth(),
        Err(RTDError::BadRequest("client already initialized".to_string()))
    );
    assert_eq!(feed(&mut client, &update("Ready"), &mut sent), AuthAction::Ignore);
    assert_eq!(client.state(), &ClientState::Error("received Opened state again".to_string()));
    assert!(sent.is_empty());
}

#[test]
fn the_outcome_of_the_handshake_is_read_once() {
    let mut client = client();
    let mut sent = Vec::new();
    feed(&mut client, &update("Ready"), &mut sent);
    assert_eq!(client.wait_for_auth(), Ok(Some(ClientState::Opened)));
    assert_eq!(
        client.wait_for_auth(),
        Err(RTDError::BadRequest("client already initialized".to_string()))
    );
    feed(&mut client, &update("Ready"), &mut sent);
    assert_eq!(
        client.wait_for_auth(),
        Err(RTDError::BadRequest("client already initialized".to_string()))
    );
    assert_eq!(client.state(), &ClientState::Error("received Opened state again".to_string()));
}

#[test]
fn states_that_cannot_be_answered_fail_the_handshake() {
    for state in ["WaitRegistration", "WaitOtherDeviceConfirmation"] {
        let mut client = client();
        let mut sent = Vec::new();
        assert_eq!(feed(&mut client, &update(state), &mut sent), AuthAction::Fail);
        assert!(sent.is_empty());
        assert_eq!(
            client.wait_for_auth(),
            Ok(Some(ClientState::Error("authorization state not supported".to_string())))
        );
        assert_eq!(client.next_action(), LoopAction::Poll);
    }
}

#[test]
fn closing_states_are_passed_on() {
    let mut client = client();
    let mut sent = Vec::new();
    feed(&mut client, &update("Ready"), &mut sent);
    assert_eq!(
        feed(&mut client, &update("LoggingOut"), &mut sent),
        AuthAction::Lifecycle(AuthorizationState::LoggingOut)
    );
    assert_eq!(
        feed(&mut client, &update("Closing"), &mut sent),
        AuthAction::Lifecycle(AuthorizationState::Closing)
    );
    assert_eq!(client.state(), &ClientState::Opened);
    assert_eq!(
        feed(&mut client, &update("Closed"), &mut sent),
        AuthAction::Lifecycle(AuthorizationState::Closed)
    );
    assert_eq!(client.state(), &ClientState::Closed);
    assert_eq!(feed(&mut client, &update("WaitPhoneNumber"), &mut sent), AuthAction::Ignore);
    assert_eq!(feed(&mut client, &update("Ready"), &mut sent), AuthAction::Ignore);
    assert_eq!(client.state(), &ClientState::Closed);
    assert!(sent.is_empty());
}

#[test]
fn a_handshake_that_ends_early_closes_the_client() {
    let mut client = client();
    client.handshake_ended();
    assert_eq!(client.wait_for_auth(), Ok(Some(ClientState::Closed)));

    let mut opened = Client::new(2, parameters());
    assert_eq!(opened.advance(AuthorizationState::Ready), AuthAction::SignalReady);
    opened.handshake_ended();
    assert_eq!(opened.state(), &ClientState::Opened);
}

#[test]
fn a_failed_request_fails_the_handshake() {
    let mut client = client();
    client.handshake_failed(&RTDError::RemoteError("PHONE_NUMBER_INVALID".to_string()));
    assert_eq!(client.state(), &ClientState::Error("PHONE_NUMBER_INVALID".to_string()));
    client.handshake_failed(&RTDError::TransportFailure);
    assert_eq!(client.state(), &ClientState::Error("PHONE_NUMBER_INVALID".to_string()));
    assert_eq!(client.advance(AuthorizationState::Ready), AuthAction::Ignore);
}

#[test]
fn handshake_alone_follows_the_phases() {
    let mut handshake = Handshake::new();
    assert_eq!(handshake.state(), &ClientState::Uninitialized);
    assert_eq!(handshake.advance(AuthorizationState::WaitParameters), AuthAction::SendParameters);
    assert_eq!(handshake.wait_for_auth(), Ok(None));
    handshake.fail("gone");
    assert_eq!(handshake.state(), &ClientState::Error("gone".to_string()));
    handshake.end();
    assert_eq!(handshake.wait_for_auth(), Ok(Some(ClientState::Error("gone".to_string()))));
}

#[test]
fn handle_auth_state_makes_no_request_without_need() {
    let frame = Frame::decode(&update("Ready")).unwrap();
    for action in [
        AuthAction::SignalReady,
        AuthAction::Fail,
        AuthAction::Ignore,
        AuthAction::Lifecycle(AuthorizationState::Closing),
    ] {
        assert_eq!(handle_auth_state(&FixedHandler, action, &frame, &parameters()), None);
    }
}

#[test]
fn the_dispatch_loop_is_started_once() {
    let mut client = client();
    assert_eq!(client.start(), Ok(()));
    assert_eq!(client.next_action(), LoopAction::Poll);
    assert_eq!(client.start(), Err(RTDError::BadRequest("client already started".to_string())));
    client.stop();
    assert_eq!(client.start(), Err(RTDError::BadRequest("client already started".to_string())));
    assert_eq!(client.next_action(), LoopAction::Halt);
}

#[test]
fn builder_needs_parameters() {
    assert_eq!(
        ClientBuilder::default().build(1).err(),
        Some(RTDError::BadRequest("tdlib_parameters not set".to_string()))
    );
    assert_eq!(
        Client::builder().build(1).err(),
        Some(RTDError::BadRequest("tdlib_parameters not set".to_string()))
    );
}

#[test]
fn builder_makes_a_new_client() {
    let client = Client::builder().with_tdlib_parameters(parameters()).build(42).unwrap();
    assert_eq!(client.client_id(), 42);
    assert_eq!(client.tdlib_parameters(), &parameters());
    assert_eq!(client.state(), &ClientState::Uninitialized);
    assert!(!client.is_stopped());
    assert_eq!(client.next_action(), LoopAction::Poll);
}

#[test]
fn raw_api_is_a_plain_handle() {
    let api = RawApi::new();
    let copy = api;
    assert_eq!(format!("{:?}", api), format!("{:?}", copy));
    assert_eq!(format!("{:?}", RawApi::default()), "RawApi");
}

#[test]
fn errors_describe_themselves() {
    assert_eq!(RTDError::BadRequest("why".to_string()).message(), "why");
    assert_eq!(RTDError::RemoteError("m".to_string()).message(), "m");
    assert_eq!(RTDError::AlreadySubscribed.message(), "correlation token already subscribed");
    assert_eq!(RTDError::Cancelled.message(), "call cancelled");
    assert_eq!(RTDError::ProtocolError.message(), "protocol error");
    assert_eq!(RTDError::TransportFailure.message(), "transport failure");
    assert_eq!(RTDError::Cancelled.clone(), RTDError::Cancelled);
}

#[test]
fn typed_lines_are_trimmed() {
    assert_eq!(TypeInAuthStateHandler::type_in("12345\n"), "12345");
    assert_eq!(TypeInAuthStateHandler::type_in("  my pass word \r\n"), "my pass word");
    assert_eq!(TypeInAuthStateHandler::type_in("\n"), "");
    assert_eq!(TypeInAuthStateHandler::prompt(SecretKind::Code), "wait for auth code");
    assert_eq!(TypeInAuthStateHandler::prompt(SecretKind::EncryptionKey), "wait for encryption key");
    assert_eq!(TypeInAuthStateHandler::prompt(SecretKind::Password), "wait for password");
    assert_eq!(TypeInAuthStateHandler::prompt(SecretKind::PhoneNumber), "wait for phone number");
}
