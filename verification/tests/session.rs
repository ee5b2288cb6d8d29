use server_list_ping::error::{DecodeFault, Error, FramingFault, ProtocolFault};
use server_list_ping::frame::build_frame;
use server_list_ping::session::{
    check_pong, handshake_frame, ping_frame, read_status, status_request_frame, NextState,
    Session, State, StatusReply, ANY_PROTOCOL_VERSION,
};
use server_list_ping::varint::convert_i32_to_varint;

fn status_frame(text: &[u8]) -> Vec<u8> {
    let mut body = convert_i32_to_varint(text.len() as i32);
    body.extend_from_slice(text);
    build_frame(0, &body).unwrap()
}

fn pong_frame(payload: i64) -> Vec<u8> {
    build_frame(1, &payload.to_be_bytes()).unwrap()
}

fn handshake_bytes() -> Vec<u8> {
    let mut expected = vec![0x18, 0x00, 0xFF, 0xFF, 0xFF, 0xFF, 0x0F, 0x0E];
    expected.extend_from_slice(b"mc.hypixel.net");
    expected.extend_from_slice(&[0x63, 0xDD, 0x01]);
    expected
}

#[test]
fn handshake_on_the_wire() {
    assert_eq!(
        handshake_frame(-1, "mc.hypixel.net", 25565, NextState::Status),
        Ok(handshake_bytes())
    );
}

#[test]
fn handshake_that_asks_for_login() {
    assert_eq!(
        handshake_frame(763, "a", 1, NextState::Login),
        Ok(vec![0x08, 0x00, 0xFB, 0x05, 0x01, b'a', 0x00, 0x01, 0x02])
    );
    assert_eq!(NextState::Status.code(), 1);
    assert_eq!(NextState::Login.code(), 2);
}

#[test]
fn handshake_counts_the_bytes_of_the_address() {
    let frame = handshake_frame(0, "日本", 80, NextState::Status).unwrap();
    assert_eq!(frame, vec![0x0C, 0x00, 0x00, 0x06, 0xE6, 0x97, 0xA5, 0xE6, 0x9C, 0xAC, 0x00, 0x50, 0x01]);
}

#[test]
fn status_request_on_the_wire() {
    assert_eq!(status_request_frame(), vec![0x01, 0x00]);
}

#[test]
fn ping_on_the_wire() {
    assert_eq!(ping_frame(771), vec![0x09, 0x01, 0, 0, 0, 0, 0, 0, 0x03, 0x03]);
    assert_eq!(ping_frame(-1), vec![0x09, 0x01, 0xFF, 0xFF, 0xFF, 0xFF, 0xFF, 0xFF, 0xFF, 0xFF]);
}

#[test]
fn status_text_is_read_out_of_its_frame() {
    let json = "{\"description\":\"A Server\"}";
    assert_eq!(read_status(&status_frame(json.as_bytes())), Ok(json.to_string()));
    assert_eq!(read_status(&status_frame(b"")), Ok(String::new()));
    assert_eq!(read_status(&status_frame("§".as_bytes())), Ok("§".to_string()));
}

#[test]
fn status_with_another_identifier_is_a_protocol_violation() {
    let mut body = convert_i32_to_varint(2);
    body.extend_from_slice(b"{}");
    let frame = build_frame(1, &body).unwrap();
    assert_eq!(read_status(&frame), Err(Error::Protocol(ProtocolFault::UnexpectedPacketId)));
}

#[test]
fn status_text_that_is_not_utf8_is_a_decode_error() {
    assert_eq!(
        read_status(&status_frame(&[0xFF, 0xFE])),
        Err(Error::Decode(DecodeFault::InvalidUtf8))
    );
    assert_eq!(
        read_status(&status_frame(&[0xC3])),
        Err(Error::Decode(DecodeFault::InvalidUtf8))
    );
}

#[test]
fn status_text_must_fill_its_frame() {
    let short = build_frame(0, &[0x05, b'a']).unwrap();
    assert_eq!(read_status(&short), Err(Error::Framing(FramingFault::UnexpectedEnd)));
    let long = build_frame(0, &[0x01, b'a', b'b']).unwrap();
    assert_eq!(read_status(&long), Err(Error::Framing(FramingFault::TrailingBytes)));
    let none = build_frame(0, &[]).unwrap();
    assert_eq!(read_status(&none), Err(Error::Framing(FramingFault::UnexpectedEnd)));
    assert_eq!(read_status(&[0x05, 0x00]), Err(Error::Framing(FramingFault::UnexpectedEnd)));
}

#[test]
fn pong_with_the_payload_of_the_ping_is_accepted() {
    let payloads: [i64; 5] = [0, 771, -1, i64::MAX, i64::MIN];
    for payload in payloads {
        assert_eq!(check_pong(&pong_frame(payload), payload), Ok(()));
        assert_eq!(check_pong(&ping_frame(payload), payload), Ok(()));
    }
}

#[test]
fn pong_with_another_payload_is_a_protocol_violation() {
    assert_eq!(
        check_pong(&pong_frame(772), 771),
        Err(Error::Protocol(ProtocolFault::PongMismatch))
    );
    assert_eq!(
        check_pong(&pong_frame(-771), 771),
        Err(Error::Protocol(ProtocolFault::PongMismatch))
    );
}

#[test]
fn pong_with_another_identifier_is_a_protocol_violation() {
    let frame = build_frame(0, &771i64.to_be_bytes()).unwrap();
    assert_eq!(check_pong(&frame, 771), Err(Error::Protocol(ProtocolFault::UnexpectedPacketId)));
}

#[test]
fn pong_must_carry_eight_bytes() {
    let short = build_frame(1, &[0, 0, 0, 0, 0, 0, 3]).unwrap();
    assert_eq!(check_pong(&short, 3), Err(Error::Framing(FramingFault::UnexpectedEnd)));
    let long = build_frame(1, &[0, 0, 0, 0, 0, 0, 0, 3, 3]).unwrap();
    assert_eq!(check_pong(&long, 3), Err(Error::Framing(FramingFault::TrailingBytes)));
    assert_eq!(check_pong(&[], 3), Err(Error::Framing(FramingFault::UnexpectedEnd)));
}

#[test]
fn a_whole_exchange_with_ping() {
    let mut session = Session::new();
    assert_eq!(session.state(), State::Disconnected);
    assert_eq!(session.connected(), Ok(()));
    assert_eq!(session.state(), State::Handshaking);

    let mut opening = handshake_bytes();
    opening.extend_from_slice(&[0x01, 0x00]);
    assert_eq!(session.handshake(ANY_PROTOCOL_VERSION, "mc.hypixel.net", 25565), Ok(opening));
    assert_eq!(session.state(), State::AwaitingStatus);

    let reply = session.receive_status(&status_frame(b"{}"), Some(771)).unwrap();
    assert_eq!(reply, StatusReply { text: "{}".to_string(), ping: Some(ping_frame(771)) });
    assert_eq!(session.state(), State::AwaitingPong);

    assert_eq!(session.receive_pong(&pong_frame(771)), Ok(()));
    assert_eq!(session.state(), State::Closed);
}

#[test]
fn an_exchange_without_ping_closes_after_the_status() {
    let mut session = Session::new();
    session.connected().unwrap();
    session.handshake(-1, "localhost", 25565).unwrap();
    let reply = session.receive_status(&status_frame(b"{}"), None).unwrap();
    assert_eq!(reply, StatusReply { text: "{}".to_string(), ping: None });
    assert_eq!(session.state(), State::Closed);
}

#[test]
fn a_closed_session_fails_with_a_transport_error() {
    let mut session = Session::new();
    session.connected().unwrap();
    session.handshake(-1, "localhost", 25565).unwrap();
    session.receive_status(&status_frame(b"{}"), None).unwrap();
    assert_eq!(session.state(), State::Closed);

    assert_eq!(session.connected(), Err(Error::Transport));
    assert_eq!(session.handshake(-1, "localhost", 25565), Err(Error::Transport));
    assert_eq!(session.receive_status(&status_frame(b"{}"), None), Err(Error::Transport));
    assert_eq!(session.receive_pong(&pong_frame(1)), Err(Error::Transport));
    assert_eq!(session.state(), State::Closed);
}

#[test]
fn closing_ends_a_session_in_any_state() {
    let mut fresh = Session::new();
    fresh.close();
    assert_eq!(fresh.state(), State::Closed);
    assert_eq!(fresh.connected(), Err(Error::Transport));

    let mut waiting = Session::new();
    waiting.connected().unwrap();
    waiting.handshake(-1, "localhost", 25565).unwrap();
    waiting.close();
    assert_eq!(waiting.receive_status(&status_frame(b"{}"), None), Err(Error::Transport));
}

#[test]
fn a_step_out_of_turn_closes_the_session() {
    let mut session = Session::new();
    assert_eq!(
        session.handshake(-1, "localhost", 25565),
        Err(Error::Protocol(ProtocolFault::OutOfOrder))
    );
    assert_eq!(session.state(), State::Closed);

    let mut twice = Session::new();
    twice.connected().unwrap();
    assert_eq!(twice.connected(), Err(Error::Protocol(ProtocolFault::OutOfOrder)));
    assert_eq!(twice.state(), State::Closed);

    let mut early = Session::new();
    early.connected().unwrap();
    assert_eq!(
        early.receive_pong(&pong_frame(1)),
        Err(Error::Protocol(ProtocolFault::OutOfOrder))
    );
    assert_eq!(early.state(), State::Closed);
}

#[test]
fn a_bad_status_closes_the_session() {
    let mut session = Session::new();
    session.connected().unwrap();
    session.handshake(-1, "localhost", 25565).unwrap();
    let wrong = build_frame(1, &[0x00]).unwrap();
    assert_eq!(
        session.receive_status(&wrong, Some(1)),
        Err(Error::Protocol(ProtocolFault::UnexpectedPacketId))
    );
    assert_eq!(session.state(), State::Closed);
}

#[test]
fn a_pong_that_does_not_match_closes_the_session() {
    let mut session = Session::new();
    session.connected().unwrap();
    session.handshake(-1, "localhost", 25565).unwrap();
    session.receive_status(&status_frame(b"{}"), Some(5)).unwrap();
    assert_eq!(
        session.receive_pong(&pong_frame(6)),
        Err(Error::Protocol(ProtocolFault::PongMismatch))
    );
    assert_eq!(session.state(), State::Closed);
    assert_eq!(session.receive_pong(&pong_frame(5)), Err(Error::Transport));
}
