use tank_relay::client::{BusError, Client, ClientType, ReadEvent, SocketOutcome};
use tank_relay::message::Message;
use tank_relay::request::Request;
use tank_relay::response::Response;
use tank_relay::{Command, State};

fn data(bytes: &[u8]) -> ReadEvent {
    ReadEvent::Data(bytes.to_vec())
}

fn decode(bytes: &[u8]) -> Result<Request, String> {
    Request::from_slice(bytes, bytes.len())
}

// ---- wire codec: decoding ----

#[test]
fn decode_introduce_ordinals() {
    assert_eq!(
        decode(b"{\"Introduce\":0}"),
        Ok(Request::Introduce(ClientType::USER))
    );
    assert_eq!(
        decode(b"{\"Introduce\":1}"),
        Ok(Request::Introduce(ClientType::TANK))
    );
    assert_eq!(
        decode(b"{\"Introduce\":2}"),
        Ok(Request::Introduce(ClientType::UNDEFINED))
    );
}

#[test]
fn decode_action_ordinals() {
    assert_eq!(
        decode(b"{\"Action\":0}"),
        Ok(Request::Action(Command::FORWARD))
    );
    assert_eq!(
        decode(b"{\"Action\":1}"),
        Ok(Request::Action(Command::BACKWARD))
    );
    assert_eq!(decode(b"{\"Action\":2}"), Ok(Request::Action(Command::LEFT)));
    assert_eq!(
        decode(b"{\"Action\":3}"),
        Ok(Request::Action(Command::RIGHT))
    );
    assert_eq!(decode(b"{\"Action\":4}"), Ok(Request::Action(Command::STOP)));
}

#[test]
fn decode_respects_size_argument() {
    // Only the first `size` bytes of the buffer are the message.
    let buffer = b"{\"Action\":4}garbage-left-in-buffer";
    assert_eq!(
        Request::from_slice(buffer, 12),
        Ok(Request::Action(Command::STOP))
    );
    assert!(Request::from_slice(buffer, buffer.len()).is_err());
}

#[test]
fn decode_rejects_malformed_input() {
    let err = "deserialize error: invalid request encoding".to_string();
    assert_eq!(decode(b""), Err(err.clone()));
    assert_eq!(decode(b"{\"Action\":5}"), Err(err.clone())); // ordinal out of range
    assert_eq!(decode(b"{\"Introduce\":3}"), Err(err.clone())); // ordinal out of range
    assert_eq!(decode(b"{\"Action\":04}"), Err(err.clone())); // wrong length
    assert_eq!(decode(b"{\"action\":4}"), Err(err.clone())); // tag is case-sensitive
    assert_eq!(decode(b"{\"Actios\":4}"), Err(err.clone())); // unknown tag
    assert_eq!(decode(b"{\"Introduce\":0"), Err(err.clone())); // missing brace
    assert_eq!(decode(b"[\"Action\",4]"), Err(err.clone())); // wrong envelope shape
    assert_eq!(decode(b"{\"Introduce\":a}"), Err(err)); // not a digit
}

// ---- wire codec: encoding ----

#[test]
fn encode_action_bytes() {
    assert_eq!(Response::Action(Command::STOP).encode(), b"{\"Action\":4}");
    assert_eq!(
        Response::Action(Command::FORWARD).encode(),
        b"{\"Action\":0}"
    );
}

#[test]
fn encode_error_bytes() {
    assert_eq!(
        Response::Er("Client Already Connected!!".to_string()).encode(),
        b"{\"Er\":\"Client Already Connected!!\"}"
    );
}

#[test]
fn encode_error_escapes_specials() {
    assert_eq!(
        Response::Er("say \"hi\"".to_string()).encode(),
        b"{\"Er\":\"say \\\"hi\\\"\"}"
    );
    assert_eq!(
        Response::Er("a\\b".to_string()).encode(),
        b"{\"Er\":\"a\\\\b\"}"
    );
    assert_eq!(
        Response::Er("a\nb".to_string()).encode(),
        b"{\"Er\":\"a\\u000ab\"}"
    );
    assert_eq!(Response::Er(String::new()).encode(), b"{\"Er\":\"\"}");
}

// ---- round trips ----

#[test]
fn round_trip_action_stop() {
    // The Action grammar is shared by both envelopes, so encoding the
    // response and decoding as a request reproduces STOP, ordinal 4.
    let bytes = Response::Action(Command::STOP).encode();
    assert_eq!(bytes, b"{\"Action\":4}");
    assert_eq!(
        Request::from_slice(&bytes, bytes.len()),
        Ok(Request::Action(Command::STOP))
    );
}

#[test]
fn round_trip_introduce_tank() {
    assert_eq!(
        decode(b"{\"Introduce\":1}"),
        Ok(Request::Introduce(ClientType::TANK))
    );
}

#[test]
fn round_trip_every_command() {
    for c in [
        Command::FORWARD,
        Command::BACKWARD,
        Command::LEFT,
        Command::RIGHT,
        Command::STOP,
    ] {
        let bytes = Response::Action(c).encode();
        assert_eq!(
            Request::from_slice(&bytes, bytes.len()),
            Ok(Request::Action(c))
        );
    }
}

// ---- role state ----

#[test]
fn claim_is_exclusive_per_role() {
    let mut s = State::new();
    assert!(s.try_claim(ClientType::USER));
    assert!(!s.try_claim(ClientType::USER)); // slot already held
    assert!(s.try_claim(ClientType::TANK)); // other slot independent
    assert!(!s.try_claim(ClientType::TANK));
    assert!(s.client_connected && s.tank_connected);
}

#[test]
fn claim_undefined_always_fails() {
    let mut s = State::new();
    assert!(!s.try_claim(ClientType::UNDEFINED));
    assert!(!s.client_connected && !s.tank_connected);
}

#[test]
fn release_frees_slot_and_is_idempotent() {
    let mut s = State::new();
    assert!(s.try_claim(ClientType::USER));
    s.release(ClientType::USER);
    assert!(!s.client_connected);
    s.release(ClientType::USER);
    assert!(!s.client_connected);
    assert!(s.try_claim(ClientType::USER)); // free again
}

#[test]
fn release_leaves_other_slot_alone() {
    let mut s = State::new();
    assert!(s.try_claim(ClientType::USER));
    assert!(s.try_claim(ClientType::TANK));
    s.release(ClientType::TANK);
    assert!(s.client_connected);
    assert!(!s.tank_connected);
}

// ---- introduction ----

#[test]
fn introduce_claims_role() {
    let mut s = State::new();
    let mut c = Client::new();
    assert_eq!(c.t, ClientType::UNDEFINED);
    assert_eq!(c.introduce(&mut s, data(b"{\"Introduce\":0}")), Ok(()));
    assert_eq!(c.t, ClientType::USER);
    assert!(s.client_connected);
    assert!(!s.tank_connected);
}

#[test]
fn introduce_rejects_second_holder() {
    let mut s = State::new();
    let mut a = Client::new();
    let mut b = Client::new();
    assert_eq!(a.introduce(&mut s, data(b"{\"Introduce\":0}")), Ok(()));
    assert_eq!(
        b.introduce(&mut s, data(b"{\"Introduce\":0}")),
        Err("Client Already Connected!!".to_string())
    );
    assert_eq!(b.t, ClientType::UNDEFINED); // rejected session holds nothing
    assert!(s.client_connected); // holder untouched

    let mut t1 = Client::new();
    let mut t2 = Client::new();
    assert_eq!(t1.introduce(&mut s, data(b"{\"Introduce\":1}")), Ok(()));
    assert_eq!(
        t2.introduce(&mut s, data(b"{\"Introduce\":1}")),
        Err("Tank Already Connected!!".to_string())
    );
}

#[test]
fn introduce_rejects_undefined_role() {
    let mut s = State::new();
    let mut c = Client::new();
    assert_eq!(
        c.introduce(&mut s, data(b"{\"Introduce\":2}")),
        Err("Wrong Client Type received".to_string())
    );
    assert!(!s.client_connected && !s.tank_connected);
}

#[test]
fn introduce_rejects_action_first() {
    let mut s = State::new();
    let mut c = Client::new();
    assert_eq!(
        c.introduce(&mut s, data(b"{\"Action\":4}")),
        Err("Wrong Request Type".to_string())
    );
    assert_eq!(c.t, ClientType::UNDEFINED);
}

#[test]
fn introduce_rejects_malformed_bytes() {
    let mut s = State::new();
    let mut c = Client::new();
    assert_eq!(
        c.introduce(&mut s, data(b"hello")),
        Err("deserialize error: invalid request encoding".to_string())
    );
}

#[test]
fn introduce_handles_transport_endings() {
    let mut s = State::new();
    let mut c = Client::new();
    assert_eq!(
        c.introduce(&mut s, ReadEvent::Closed),
        Err("client disconnected".to_string())
    );
    assert_eq!(
        c.introduce(&mut s, ReadEvent::Failed),
        Err("reader error".to_string())
    );
    assert!(!s.client_connected && !s.tank_connected);
}

#[test]
fn set_client_type_direct() {
    let mut s = State::new();
    let mut c = Client::new();
    assert_eq!(c.set_client_type(&mut s, ClientType::TANK), Ok(()));
    assert_eq!(c.t, ClientType::TANK);
    assert!(s.tank_connected);
    let mut d = Client::new();
    assert_eq!(
        d.set_client_type(&mut s, ClientType::TANK),
        Err("Tank Already Connected!!".to_string())
    );
    assert_eq!(
        d.set_client_type(&mut s, ClientType::UNDEFINED),
        Err("Wrong Client Type received".to_string())
    );
}

// ---- active phase ----

#[test]
fn socket_read_publishes_actions() {
    let c = Client::new();
    assert_eq!(
        c.on_socket_read(data(b"{\"Action\":0}")),
        SocketOutcome::Publish(Message::Command(Command::FORWARD))
    );
    assert_eq!(
        c.on_socket_read(data(b"{\"Action\":4}")),
        SocketOutcome::Publish(Message::Command(Command::STOP))
    );
}

#[test]
fn socket_read_terminates_on_disconnect_or_garbage() {
    let c = Client::new();
    assert_eq!(c.on_socket_read(ReadEvent::Closed), SocketOutcome::Terminate);
    assert_eq!(c.on_socket_read(ReadEvent::Failed), SocketOutcome::Terminate);
    assert_eq!(c.on_socket_read(data(b"not json")), SocketOutcome::Terminate);
}

#[test]
fn second_introduce_is_a_violation_not_a_role_change() {
    let mut s = State::new();
    let mut c = Client::new();
    assert_eq!(c.introduce(&mut s, data(b"{\"Introduce\":0}")), Ok(()));
    // A second Introduce while ACTIVE terminates the session...
    assert_eq!(
        c.on_socket_read(data(b"{\"Introduce\":1}")),
        SocketOutcome::Terminate
    );
    // ...and does not reassign the role.
    assert_eq!(c.t, ClientType::USER);
    assert!(s.client_connected);
    assert!(!s.tank_connected);
}

#[test]
fn bus_receive_echoes_command() {
    let c = Client::new();
    assert_eq!(
        c.on_message_received(Ok(Message::Command(Command::LEFT))),
        Some(Response::Action(Command::LEFT))
    );
}

#[test]
fn bus_failure_terminates() {
    let c = Client::new();
    assert_eq!(c.on_message_received(Err(BusError::Closed)), None);
    assert_eq!(c.on_message_received(Err(BusError::Lagged(3))), None);
}

// ---- teardown ----

#[test]
fn disconnect_releases_held_role() {
    let mut s = State::new();
    let mut c = Client::new();
    assert_eq!(c.introduce(&mut s, data(b"{\"Introduce\":1}")), Ok(()));
    c.on_disconnect(&mut s);
    assert!(!s.tank_connected);
}

#[test]
fn disconnect_of_undefined_session_changes_nothing() {
    let mut s = State::new();
    assert!(s.try_claim(ClientType::USER));
    let c = Client::new();
    c.on_disconnect(&mut s);
    assert!(s.client_connected); // someone else's slot is not touched
}

#[test]
fn send_error_encodes_er_envelope() {
    let c = Client::new();
    assert_eq!(
        c.send_error("Wrong Request Type"),
        b"{\"Er\":\"Wrong Request Type\"}"
    );
}

// ---- end-to-end scenario ----

#[test]
fn relay_session_scenario() {
    let mut s = State::new();

    // Client A introduces as USER: no reply, role claimed.
    let mut a = Client::new();
    assert_eq!(a.introduce(&mut s, data(b"{\"Introduce\":0}")), Ok(()));
    assert!(s.client_connected);

    // Client B tries USER too: rejected, A's role untouched.
    let mut b = Client::new();
    let err = b.introduce(&mut s, data(b"{\"Introduce\":0}"));
    assert_eq!(err, Err("Client Already Connected!!".to_string()));
    assert_eq!(
        b.send_error("Client Already Connected!!"),
        b"{\"Er\":\"Client Already Connected!!\"}"
    );
    b.on_disconnect(&mut s);
    assert!(s.client_connected);

    // Client C introduces as TANK: claimed, no reply.
    let mut c = Client::new();
    assert_eq!(c.introduce(&mut s, data(b"{\"Introduce\":1}")), Ok(()));
    assert!(s.tank_connected);

    // A sends Action(FORWARD): published on the bus, and both subscribers
    // (A itself and C) echo it to their own peers with the same ordinal.
    let published = a.on_socket_read(data(b"{\"Action\":0}"));
    let msg = match published {
        SocketOutcome::Publish(m) => m,
        SocketOutcome::Terminate => panic!("expected a publish"),
    };
    for session in [&a, &c] {
        let reply = session.on_message_received(Ok(msg));
        assert_eq!(reply, Some(Response::Action(Command::FORWARD)));
        assert_eq!(reply.unwrap().encode(), b"{\"Action\":0}");
    }

    // A disconnects: USER slot released, a new client D can claim it.
    a.on_disconnect(&mut s);
    assert!(!s.client_connected);
    let mut d = Client::new();
    assert_eq!(d.introduce(&mut s, data(b"{\"Introduce\":0}")), Ok(()));
    assert!(s.client_connected);
}
