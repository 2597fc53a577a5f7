use lnd_client::{
    ChannelError, ChannelState, FrameKind, HodlState, Inbound, InvoicePaymentState,
    LndHodlInvoiceState, LndPaymentRequest, LndPaymentResponse, LndWebsocket,
    LndWebsocketMessage, LndWebsocketReader, LndWebsocketWriter, ReadStep,
};
use lnd_client::lnd::websocket::{classify, handshake};

const STATE_FRAME: &str =
    "{\"result\":{\"settled\":false,\"state\":\"OPEN\",\"r_hash\":\"aGFzaA==\",\"payment_request\":\"lnbc1\"}}";

fn open_channel(threshold: u64) -> LndWebsocket {
    let mut channel = LndWebsocket::new(threshold);
    channel.opened();
    channel
}

#[test]
fn success_envelope_yields_its_payload() {
    match classify::<LndHodlInvoiceState>(STATE_FRAME) {
        FrameKind::Response(state) => {
            assert!(!state.settled());
            assert_eq!(state.state(), HodlState::OPEN);
            assert_eq!(state.r_hash(), "aGFzaA==");
            assert_eq!(state.payment_request(), "lnbc1");
        }
        other => panic!("expected a response, got {:?}", other),
    }
}

#[test]
fn written_payload_is_classified_as_itself() {
    let text = "{\"payment_preimage\":\"00ff\",\"status\":\"SUCCEEDED\"}";
    let payload = LndPaymentResponse::try_from(text.to_string()).unwrap();
    let frame = format!("{{\"result\":{}}}", payload.try_into().unwrap());
    match classify::<LndPaymentResponse>(&frame) {
        FrameKind::Response(back) => {
            assert_eq!(back.preimage(), "00ff");
            assert_eq!(back.status(), InvoicePaymentState::Succeeded);
        }
        other => panic!("expected a response, got {:?}", other),
    }
}

#[test]
fn error_envelope_yields_code_and_message() {
    match classify::<LndHodlInvoiceState>("{\"error\":{\"code\":5,\"message\":\"not found\"}}") {
        FrameKind::Error(error) => {
            assert_eq!(error.code(), 5);
            assert_eq!(error.message(), "not found");
        }
        other => panic!("expected an error, got {:?}", other),
    }
}

#[test]
fn error_envelope_with_negative_code_and_escapes() {
    match classify::<LndPaymentResponse>(
        "{\"error\":{\"code\":-2147483648,\"message\":\"a \\\"b\\\"\\n\"}}",
    ) {
        FrameKind::Error(error) => {
            assert_eq!(error.code(), i32::MIN);
            assert_eq!(error.message(), "a \"b\"\n");
        }
        other => panic!("expected an error, got {:?}", other),
    }
}

#[test]
fn text_of_neither_schema_is_unrecognized() {
    for text in [
        "",
        "hello",
        "{}",
        "[1,2]",
        "{\"foo\":1}",
        "{\"result\":{\"state\":\"OPEN\"}}",
        "{\"result\":{\"settled\":false,\"state\":\"PENDING\",\"r_hash\":\"\",\"payment_request\":\"\"}}",
        "{\"error\":{\"code\":2147483648,\"message\":\"x\"}}",
        "{\"error\":{\"code\":5.0,\"message\":\"x\"}}",
        "{\"error\":{\"code\":5}}",
        "{\"error\":{\"code\":\"5\",\"message\":\"x\"}}",
    ] {
        assert!(
            matches!(classify::<LndHodlInvoiceState>(text), FrameKind::Unrecognized),
            "{}",
            text
        );
    }
}

#[test]
fn success_envelope_comes_before_error_envelope() {
    let both = "{\"error\":{\"code\":1,\"message\":\"m\"},\"result\":{\"payment_preimage\":\"p\",\"status\":\"FAILED\"}}";
    assert!(matches!(classify::<LndPaymentResponse>(both), FrameKind::Response(_)));
}

#[test]
fn unknown_members_are_ignored() {
    let text = "{\"result\":{\"payment_preimage\":\"p\",\"status\":\"IN_FLIGHT\",\"extra\":[1,{}]},\"id\":7}";
    match classify::<LndPaymentResponse>(text) {
        FrameKind::Response(r) => assert_eq!(r.status(), InvoicePaymentState::InFlight),
        other => panic!("expected a response, got {:?}", other),
    }
}

#[test]
fn unrecognized_frame_leaves_the_channel_as_it_is() {
    let mut channel = open_channel(3);
    assert!(matches!(
        channel.read::<LndHodlInvoiceState>(Inbound::Ping),
        ReadStep::Deliver(LndWebsocketMessage::Ping)
    ));
    let step = channel.read::<LndHodlInvoiceState>(Inbound::Text("not json".to_string()));
    assert!(matches!(step, ReadStep::Skip));
    assert_eq!(channel.state(), ChannelState::Open);
    assert_eq!(channel.receiver().keepalives(), 1);
    assert_eq!(channel.cause(), None);
    let step = channel.read::<LndHodlInvoiceState>(Inbound::Other);
    assert!(matches!(step, ReadStep::Skip));
    assert_eq!(channel.state(), ChannelState::Open);
    assert_eq!(channel.receiver().keepalives(), 1);
}

#[test]
fn fourth_keepalive_closes_a_channel_that_tolerates_three() {
    let mut channel = open_channel(3);
    for count in 1..=3u64 {
        let step = channel.read::<LndHodlInvoiceState>(Inbound::Ping);
        assert!(matches!(step, ReadStep::Deliver(LndWebsocketMessage::Ping)));
        assert_eq!(channel.state(), ChannelState::Open);
        assert_eq!(channel.receiver().keepalives(), count);
    }
    let step = channel.read::<LndHodlInvoiceState>(Inbound::Ping);
    assert!(matches!(step, ReadStep::End(ChannelError::LivenessTimeout)));
    assert_eq!(channel.state(), ChannelState::Closed);
    assert_eq!(channel.cause(), Some(ChannelError::LivenessTimeout));
}

#[test]
fn threshold_zero_closes_on_the_first_keepalive() {
    let mut channel = open_channel(0);
    let step = channel.read::<LndHodlInvoiceState>(Inbound::Ping);
    assert!(matches!(step, ReadStep::End(ChannelError::LivenessTimeout)));
    assert_eq!(channel.state(), ChannelState::Closed);
}

#[test]
fn response_resets_the_keepalive_count() {
    let mut channel = open_channel(3);
    for _ in 0..3 {
        channel.read::<LndHodlInvoiceState>(Inbound::Ping);
    }
    assert_eq!(channel.receiver().keepalives(), 3);
    let step = channel.read::<LndHodlInvoiceState>(Inbound::Text(STATE_FRAME.to_string()));
    assert!(matches!(step, ReadStep::Deliver(LndWebsocketMessage::Response(_))));
    assert_eq!(channel.receiver().keepalives(), 0);
    for _ in 0..3 {
        let step = channel.read::<LndHodlInvoiceState>(Inbound::Ping);
        assert!(matches!(step, ReadStep::Deliver(LndWebsocketMessage::Ping)));
    }
    assert_eq!(channel.state(), ChannelState::Open);
    let step = channel.read::<LndHodlInvoiceState>(Inbound::Ping);
    assert!(matches!(step, ReadStep::End(ChannelError::LivenessTimeout)));
}

#[test]
fn state_record_is_delivered_and_resets_the_count() {
    let mut channel = open_channel(5);
    channel.read::<LndHodlInvoiceState>(Inbound::Ping);
    channel.read::<LndHodlInvoiceState>(Inbound::Ping);
    match channel.read::<LndHodlInvoiceState>(Inbound::Text(STATE_FRAME.to_string())) {
        ReadStep::Deliver(LndWebsocketMessage::Response(state)) => {
            assert_eq!(state.state(), HodlState::OPEN);
        }
        other => panic!("expected a response, got {:?}", other),
    }
    assert_eq!(channel.receiver().keepalives(), 0);
    assert_eq!(channel.state(), ChannelState::Open);
}

#[test]
fn error_envelope_is_delivered_and_closes_the_channel() {
    let mut channel = open_channel(3);
    let frame = "{\"error\":{\"code\":5,\"message\":\"not found\"}}".to_string();
    match channel.read::<LndHodlInvoiceState>(Inbound::Text(frame)) {
        ReadStep::Deliver(LndWebsocketMessage::Error(error)) => {
            assert_eq!(error.code(), 5);
            assert_eq!(error.message(), "not found");
        }
        other => panic!("expected an error, got {:?}", other),
    }
    assert_eq!(channel.state(), ChannelState::Closed);
    assert_eq!(channel.cause(), Some(ChannelError::ApplicationError));
    let step = channel.read::<LndHodlInvoiceState>(Inbound::Text(STATE_FRAME.to_string()));
    assert!(matches!(step, ReadStep::End(ChannelError::ConnectionClosed)));
    assert_eq!(channel.cause(), Some(ChannelError::ApplicationError));
}

#[test]
fn two_sends_leave_in_the_order_of_the_calls() {
    let mut channel = open_channel(3);
    let first = LndPaymentRequest::new("lnbc1first".to_string(), 10, "10".to_string(), false);
    let second = LndPaymentRequest::new("lnbc1second".to_string(), 20, "5".to_string(), true);
    assert_eq!(channel.send(first), Ok(()));
    assert_eq!(channel.send(second), Ok(()));
    assert_eq!(channel.sender().pending(), 2);
    assert_eq!(
        channel.next_frame().unwrap(),
        "{\"payment_request\":\"lnbc1first\",\"timeout_seconds\":10,\"fee_limit_sat\":\"10\",\"allow_self_payment\":false}"
    );
    assert_eq!(
        channel.next_frame().unwrap(),
        "{\"payment_request\":\"lnbc1second\",\"timeout_seconds\":20,\"fee_limit_sat\":\"5\",\"allow_self_payment\":true}"
    );
    assert_eq!(channel.next_frame(), None);
}

#[test]
fn send_after_close_fails_and_writes_nothing() {
    let mut channel = open_channel(3);
    let request = LndPaymentRequest::new("lnbc1".to_string(), 10, "10".to_string(), false);
    assert_eq!(channel.send(request.clone()), Ok(()));
    channel.close();
    assert_eq!(channel.state(), ChannelState::Closed);
    assert_eq!(channel.next_frame(), None);
    assert_eq!(channel.send(request), Err(ChannelError::ConnectionClosed));
    assert_eq!(channel.sender().pending(), 0);
    assert_eq!(channel.next_frame(), None);
}

#[test]
fn send_before_open_fails() {
    let mut channel = LndWebsocket::new(3);
    assert_eq!(channel.state(), ChannelState::Connecting);
    let request = LndPaymentRequest::new("lnbc1".to_string(), 10, "10".to_string(), false);
    assert_eq!(channel.send(request), Err(ChannelError::ConnectionClosed));
    assert_eq!(channel.next_frame(), None);
    let step = channel.read::<LndHodlInvoiceState>(Inbound::Ping);
    assert!(matches!(step, ReadStep::End(ChannelError::ConnectionClosed)));
    assert_eq!(channel.state(), ChannelState::Connecting);
}

#[test]
fn closed_channel_does_not_reopen() {
    let mut channel = open_channel(3);
    channel.close();
    channel.opened();
    assert_eq!(channel.state(), ChannelState::Closed);
    assert_eq!(channel.cause(), Some(ChannelError::ConnectionClosed));
    channel.close();
    assert_eq!(channel.cause(), Some(ChannelError::ConnectionClosed));
}

#[test]
fn refused_upgrade_closes_a_waiting_channel() {
    let mut channel = LndWebsocket::new(3);
    channel.refused();
    assert_eq!(channel.state(), ChannelState::Closed);
    assert_eq!(channel.cause(), Some(ChannelError::ConnectionRefused));
    let mut open = open_channel(3);
    open.refused();
    assert_eq!(open.state(), ChannelState::Open);
}

#[test]
fn close_frame_and_transport_error_end_the_channel() {
    let mut channel = open_channel(3);
    let step = channel.read::<LndHodlInvoiceState>(Inbound::Close);
    assert!(matches!(step, ReadStep::End(ChannelError::PeerClosed)));
    assert_eq!(channel.cause(), Some(ChannelError::PeerClosed));
    assert_eq!(channel.sender().state(), ChannelState::Closed);

    let mut channel = open_channel(3);
    let step = channel.read::<LndHodlInvoiceState>(Inbound::Failure);
    assert!(matches!(step, ReadStep::End(ChannelError::TransportError)));
    assert_eq!(channel.cause(), Some(ChannelError::TransportError));
    let step = channel.read::<LndHodlInvoiceState>(Inbound::Close);
    assert!(matches!(step, ReadStep::End(ChannelError::ConnectionClosed)));
    assert_eq!(channel.cause(), Some(ChannelError::TransportError));
}

#[test]
fn halves_work_on_their_own() {
    let mut reader = LndWebsocketReader::new(1);
    assert_eq!(reader.threshold(), 1);
    reader.opened();
    assert!(matches!(
        reader.read::<LndPaymentResponse>(Inbound::Ping),
        ReadStep::Deliver(LndWebsocketMessage::Ping)
    ));
    assert!(matches!(
        reader.read::<LndPaymentResponse>(Inbound::Ping),
        ReadStep::End(ChannelError::LivenessTimeout)
    ));
    assert_eq!(reader.state(), ChannelState::Closed);

    let mut writer = LndWebsocketWriter::new();
    assert_eq!(writer.send_text(Some("a".to_string())), Err(ChannelError::ConnectionClosed));
    writer.opened();
    assert_eq!(writer.send_text(None), Err(ChannelError::SerializationError));
    assert_eq!(writer.send_text(Some("a".to_string())), Ok(()));
    assert_eq!(writer.send_text(Some("b".to_string())), Ok(()));
    assert_eq!(writer.next_frame(), Some("a".to_string()));
    writer.close();
    assert_eq!(writer.next_frame(), None);
    assert_eq!(writer.pending(), 0);
}

#[test]
fn handshake_lists_the_headers_in_order() {
    let channel = LndWebsocket::new(3);
    let request = channel
        .connect(
            "lnd.example.com".to_string(),
            "0a1b".to_string(),
            "wss://lnd.example.com/v2/invoices/subscribe/abc".to_string(),
        )
        .unwrap();
    assert_eq!(request.method, "GET");
    assert_eq!(request.path, "wss://lnd.example.com/v2/invoices/subscribe/abc");
    assert_eq!(request.version, 1);
    assert!(request.accept_invalid_certs);
    let headers: Vec<(&str, &str, bool)> = request
        .headers
        .iter()
        .map(|h| (h.name.as_str(), h.value.as_str(), h.sensitive))
        .collect();
    assert_eq!(
        headers,
        vec![
            ("Grpc-Metadata-macaroon", "0a1b", true),
            ("Sec-WebSocket-Key", "dGhlIHNhbXBsZSBub25jZQ2342qdfsdgfsdfg", false),
            ("Host", "lnd.example.com", false),
            ("Connection", "Upgrade", false),
            ("Upgrade", "websocket", false),
            ("Sec-WebSocket-Version", "13", false),
        ]
    );
    assert_eq!(channel.state(), ChannelState::Connecting);
}

#[test]
fn handshake_refuses_values_that_cannot_be_headers() {
    assert_eq!(
        handshake("host", "0a\n1b", "/p", "key", false).unwrap_err(),
        ChannelError::HandshakeError
    );
    assert_eq!(
        handshake("h\u{f6}st", "0a1b", "/p", "key", false).unwrap_err(),
        ChannelError::HandshakeError
    );
    assert_eq!(
        handshake("host", "0a1b", "/p", "k\u{7f}", false).unwrap_err(),
        ChannelError::HandshakeError
    );
    let ok = handshake("host name\t", "0a1b~", "/\u{e9}", "key", false).unwrap();
    assert!(!ok.accept_invalid_certs);
    assert_eq!(ok.headers[1].value, "key");
}
