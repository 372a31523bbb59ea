use semtech_udp::{
    begin_send, handle_datagram, match_ack, writer_step, Endpoint, Event, GatewayTable,
    MacAddress, Packet, PullResp, SendError, TxAck, TxPk, UdpMessage, Up,
};

fn pull_data_frame(token: u16, mac: [u8; 8]) -> Vec<u8> {
    let mut v = vec![0x2u8, (token >> 8) as u8, (token & 0xff) as u8, 0x2];
    v.extend_from_slice(&mac);
    v
}

const MAC_A: [u8; 8] = [0xAA, 0x55, 0x5A, 0x1, 0x2, 0x3, 0x4, 0x5];

fn endpoint_a() -> Endpoint {
    Endpoint::new(0x0a00_0001, 1700)
}

fn endpoint_b() -> Endpoint {
    Endpoint::new(0x0a00_0002, 1700)
}

#[test]
fn first_pull_data_emits_new_client_then_uplink() {
    let mut table = GatewayTable::new();
    let frame = pull_data_frame(0x9F92, MAC_A);
    let actions = handle_datagram(&frame, frame.len(), endpoint_a());
    assert!(!actions.fatal);
    assert_eq!(actions.messages.len(), 2);
    assert_eq!(actions.events.len(), 1);

    // The routing update is performed before the event is published.
    let mut msgs = actions.messages.into_iter();
    let first = msgs.next().unwrap();
    assert!(matches!(first, UdpMessage::Client(m, a)
        if m == MacAddress::new(MAC_A) && a == endpoint_a()));
    let effects = writer_step(&mut table, first);
    assert_eq!(
        effects.event,
        Some(Event::NewClient(MacAddress::new(MAC_A), endpoint_a()))
    );
    assert!(effects.datagram.is_none());

    // The owed PullAck is routed by MAC to the address just learned.
    let second = msgs.next().unwrap();
    let effects = writer_step(&mut table, second);
    let (bytes, dest) = effects.datagram.unwrap();
    assert_eq!(dest, endpoint_a());
    assert_eq!(bytes, vec![0x2, 0x9F, 0x92, 0x3]);

    // The uplink itself follows.
    assert!(matches!(&actions.events[0], Event::Packet(Up::PullData(d))
        if d.random_token == 0x9F92));
}

#[test]
fn repeated_pull_data_same_addr_is_silent() {
    let mut table = GatewayTable::new();
    let mac = MacAddress::new(MAC_A);
    writer_step(&mut table, UdpMessage::Client(mac, endpoint_a()));
    let effects = writer_step(&mut table, UdpMessage::Client(mac, endpoint_a()));
    assert_eq!(effects.event, None);
    assert!(effects.datagram.is_none());
}

#[test]
fn pull_data_from_new_addr_emits_one_update() {
    let mut table = GatewayTable::new();
    let mac = MacAddress::new(MAC_A);
    writer_step(&mut table, UdpMessage::Client(mac, endpoint_a()));
    let effects = writer_step(&mut table, UdpMessage::Client(mac, endpoint_b()));
    assert_eq!(
        effects.event,
        Some(Event::UpdateClient(mac, endpoint_b()))
    );
    // And a third announcement of the same address is again silent.
    let effects = writer_step(&mut table, UdpMessage::Client(mac, endpoint_b()));
    assert_eq!(effects.event, None);
}

#[test]
fn push_data_is_acked_by_socket() {
    let mut table = GatewayTable::new();
    let mut frame = vec![0x2u8, 0x5E, 0x52, 0x0];
    frame.extend_from_slice(&MAC_A);
    frame.extend_from_slice(b"{\"stat\":{\"rxnb\":3}}");
    let actions = handle_datagram(&frame, frame.len(), endpoint_a());
    assert_eq!(actions.messages.len(), 1);
    // The ack goes to the source endpoint even though the MAC is unknown.
    let effects = writer_step(&mut table, actions.messages.into_iter().next().unwrap());
    let (bytes, dest) = effects.datagram.unwrap();
    assert_eq!(dest, endpoint_a());
    assert_eq!(bytes, vec![0x2, 0x5E, 0x52, 0x1]);
    assert!(matches!(&actions.events[0], Event::Packet(Up::PushData(_))));
}

#[test]
fn down_frame_from_gateway_is_fatal() {
    let frame = vec![0x2u8, 0x10, 0x20, 0x1];
    let actions = handle_datagram(&frame, frame.len(), endpoint_a());
    assert!(actions.fatal);
    assert!(actions.messages.is_empty());
    assert!(actions.events.is_empty());
}

#[test]
fn unparseable_datagram_becomes_event() {
    let frame = b"not a frame".to_vec();
    let actions = handle_datagram(&frame, frame.len(), endpoint_a());
    assert!(!actions.fatal);
    assert!(actions.messages.is_empty());
    assert_eq!(
        actions.events,
        vec![Event::UnableToParseUdpFrame(frame)]
    );
}

fn some_txpk() -> TxPk {
    TxPk::new(b"{\"imme\":true,\"data\":\"AQID\"}".to_vec()).unwrap()
}

fn tx_ack_event(token: u16, mac: [u8; 8], error: Option<&str>) -> Event {
    Event::Packet(Up::TxAck(TxAck {
        random_token: token,
        gateway_mac: MacAddress::new(mac),
        payload: Vec::new(),
        error: error.map(|e| e.to_string()),
    }))
}

#[test]
fn send_completes_on_matching_ack_without_error() {
    let (token, message) = begin_send(some_txpk(), MacAddress::new(MAC_A));
    // The message carries a PullResp wrapping the radio parameters.
    assert!(matches!(&message, UdpMessage::PacketByMac(
        Packet::Down(semtech_udp::Down::PullResp(PullResp { random_token, payload })), m)
        if *random_token == token
            && m == &MacAddress::new(MAC_A)
            && payload == &b"{\"txpk\":{\"imme\":true,\"data\":\"AQID\"}}".to_vec()));
    assert_eq!(
        match_ack(token, &tx_ack_event(token, MAC_A, None)),
        Some(Ok(()))
    );
    // The designated no-error code succeeds too.
    assert_eq!(
        match_ack(token, &tx_ack_event(token, MAC_A, Some("NONE"))),
        Some(Ok(()))
    );
}

#[test]
fn send_reports_gateway_error_verbatim() {
    let (token, _message) = begin_send(some_txpk(), MacAddress::new(MAC_A));
    assert_eq!(
        match_ack(token, &tx_ack_event(token, MAC_A, Some("TOO_LATE"))),
        Some(Err(SendError::GatewayError("TOO_LATE".to_string())))
    );
}

#[test]
fn send_to_unknown_gateway_fails_without_waiting() {
    let mut table = GatewayTable::new();
    let (token, message) = begin_send(some_txpk(), MacAddress::new(MAC_A));
    // The writer cannot route the PullResp and synthesizes a NACK event.
    let effects = writer_step(&mut table, message);
    assert!(effects.datagram.is_none());
    let nack = effects.event.unwrap();
    assert_eq!(
        match_ack(token, &nack),
        Some(Err(SendError::GatewayUnknown))
    );
}

#[test]
fn send_routes_to_known_gateway() {
    let mut table = GatewayTable::new();
    let mac = MacAddress::new(MAC_A);
    writer_step(&mut table, UdpMessage::Client(mac, endpoint_a()));
    let (token, message) = begin_send(some_txpk(), mac);
    let effects = writer_step(&mut table, message);
    assert!(effects.event.is_none());
    let (bytes, dest) = effects.datagram.unwrap();
    assert_eq!(dest, endpoint_a());
    assert_eq!(bytes[0], 0x2);
    assert_eq!(bytes[1], (token >> 8) as u8);
    assert_eq!(bytes[2], (token & 0xff) as u8);
    assert_eq!(bytes[3], 0x4);
    assert_eq!(&bytes[4..], &b"{\"txpk\":{\"imme\":true,\"data\":\"AQID\"}}"[..]);
}

#[test]
fn concurrent_sends_ignore_each_others_acks() {
    let token_one: u16 = 0x1111;
    let token_two: u16 = 0x2222;
    // A waiting call sees the other call's ack, an uplink, a client event
    // and a parse failure, and keeps waiting through all of them.
    assert_eq!(
        match_ack(token_one, &tx_ack_event(token_two, MAC_A, None)),
        None
    );
    assert_eq!(
        match_ack(token_one, &Event::NewClient(MacAddress::new(MAC_A), endpoint_a())),
        None
    );
    assert_eq!(
        match_ack(token_one, &Event::UnableToParseUdpFrame(vec![0x0])),
        None
    );
    // Its own ack still finishes it.
    assert_eq!(
        match_ack(token_one, &tx_ack_event(token_one, MAC_A, None)),
        Some(Ok(()))
    );
}

#[test]
fn txpk_rejects_malformed_json() {
    assert!(TxPk::new(b"{\"imme\":".to_vec()).is_none());
}
