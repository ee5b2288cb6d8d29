//! The order of a status exchange: a handshake and a status request go
//! out, the status comes back, and a ping may follow, answered by a pong.
//! After that, or after any failure, the session is closed for good.
//!
//! A `Session` decides; it reads and writes nothing. Whoever owns the
//! transport writes the bytes a step hands out and hands the frames it
//! reads to the next step.

use vstd::prelude::*;
use crate::error::{DecodeFault, Error, FramingFault, ProtocolFault};
use crate::frame::{
    build_frame, frame_of, lemma_frame_round_trip, parse_frame, read_prefixed, spec_fits,
    spec_frame, spec_parse_frame, spec_prefixed,
};
use crate::varint::{convert_i32_to_varint, lemma_encode_len, spec_encode};
use crate::wire::{
    append_bytes, get_i64_be, lemma_i64_be_round_trip, lemma_i64_be_unique, put_i64_be,
    put_u16_be, spec_i64_be, spec_i64_from_be, spec_u16_be,
};

verus! {

/// The identifier of the handshake, of the status request and of the status response.
pub const STATUS_PACKET: i32 = 0x00;

/// The identifier of the ping and of the pong.
pub const PING_PACKET: i32 = 0x01;

/// The protocol version that asks a server for its status whatever
/// version it speaks.
pub const ANY_PROTOCOL_VERSION: i32 = -1;

/// What a handshake asks the server to go on with.
#[derive(Debug, Clone, Copy, PartialEq, Eq, Structural)]
pub enum NextState {
    Status,
    Login,
}

impl NextState {
    /// The number that stands for the state on the wire.
    pub open spec fn spec_code(self) -> i32 {
        match self {
            NextState::Status => 1,
            NextState::Login => 2,
        }
    }

    /// The number that stands for the state on the wire.
    pub fn code(self) -> (c: i32)
        ensures
            c == self.spec_code(),
    {
        match self {
            NextState::Status => 1,
            NextState::Login => 2,
        }
    }
}

/// Where a session stands.
#[derive(Debug, Clone, Copy, PartialEq, Eq, Structural)]
pub enum State {
    /// Nothing has happened yet.
    Disconnected,
    /// The transport is connected; the handshake has not gone out.
    Handshaking,
    /// Handshake and status request are out; the status is awaited.
    AwaitingStatus,
    /// A ping is out; its pong is awaited.
    AwaitingPong,
    /// The session is over. Nothing leads out of this state.
    Closed,
}

/// The body of a handshake: protocol version, server address behind its
/// length, port, and the state asked for.
pub open spec fn spec_handshake_body(
    version: i32,
    address: Seq<u8>,
    port: u16,
    next: NextState,
) -> Seq<u8> {
    spec_encode(version) + spec_encode(address.len() as i32) + address + spec_u16_be(port)
        + spec_encode(next.spec_code())
}

/// Whether a handshake can carry the address: its length must fit a
/// VarInt, and the whole body a frame.
pub open spec fn spec_handshake_fits(
    version: i32,
    address: Seq<u8>,
    port: u16,
    next: NextState,
) -> bool {
    &&& address.len() <= i32::MAX
    &&& spec_fits(STATUS_PACKET, spec_handshake_body(version, address, port, next))
}

/// The frame of a handshake.
pub open spec fn spec_handshake(
    version: i32,
    address: Seq<u8>,
    port: u16,
    next: NextState,
) -> Seq<u8> {
    spec_frame(STATUS_PACKET, spec_handshake_body(version, address, port, next))
}

/// The frame of a status request: the identifier and no body.
pub open spec fn spec_status_request() -> Seq<u8> {
    spec_frame(STATUS_PACKET, Seq::<u8>::empty())
}

/// The frame of a ping that carries `payload`.
pub open spec fn spec_ping(payload: i64) -> Seq<u8> {
    spec_frame(PING_PACKET, spec_i64_be(payload))
}

/// The frame of the pong that answers with `payload`.
pub open spec fn spec_pong(payload: i64) -> Seq<u8> {
    spec_frame(PING_PACKET, spec_i64_be(payload))
}

/// The bytes of the status text in a status response: the frame must
/// carry the status identifier and then, behind its length, the text,
/// which must be UTF-8.
pub open spec fn spec_status_text(frame: Seq<u8>) -> Result<Seq<u8>, Error> {
    match spec_parse_frame(frame) {
        Err(e) => Err(e),
        Ok((id, body)) => if id != STATUS_PACKET {
            Err(Error::Protocol(ProtocolFault::UnexpectedPacketId))
        } else {
            match spec_prefixed(body) {
                Err(e) => Err(e),
                Ok(text) => if vstd::utf8::valid_utf8(text) {
                    Ok(text)
                } else {
                    Err(Error::Decode(DecodeFault::InvalidUtf8))
                },
            }
        },
    }
}

/// Whether `frame` is the pong to a ping that carried `sent`: it must
/// carry the ping identifier and exactly eight bytes, which spell `sent`.
pub open spec fn spec_check_pong(frame: Seq<u8>, sent: i64) -> Result<(), Error> {
    match spec_parse_frame(frame) {
        Err(e) => Err(e),
        Ok((id, body)) => if id != PING_PACKET {
            Err(Error::Protocol(ProtocolFault::UnexpectedPacketId))
        } else if body.len() < 8 {
            Err(Error::Framing(FramingFault::UnexpectedEnd))
        } else if body.len() > 8 {
            Err(Error::Framing(FramingFault::TrailingBytes))
        } else if spec_i64_from_be(body) != sent {
            Err(Error::Protocol(ProtocolFault::PongMismatch))
        } else {
            Ok(())
        },
    }
}

/// A ping and a pong always fit a frame.
proof fn lemma_ping_fits(payload: i64)
    ensures
        spec_fits(PING_PACKET, spec_i64_be(payload)),
        spec_fits(STATUS_PACKET, Seq::<u8>::empty()),
{
    lemma_encode_len(PING_PACKET);
    lemma_encode_len(STATUS_PACKET);
}

/// The pong that carries the payload of the ping is accepted, and a pong
/// that carries any other payload is a protocol violation.
pub proof fn lemma_pong_echo(sent: i64, answered: i64)
    ensures
        spec_check_pong(spec_pong(answered), sent) == (if answered == sent {
            Ok::<(), Error>(())
        } else {
            Err::<(), Error>(Error::Protocol(ProtocolFault::PongMismatch))
        }),
{
    lemma_ping_fits(answered);
    lemma_frame_round_trip(PING_PACKET, spec_i64_be(answered));
    lemma_i64_be_round_trip(answered);
}

/// Only the echo is accepted: a frame that passes as the pong to `sent`
/// is the frame of a pong that carries `sent`, byte for byte its packet.
pub proof fn lemma_pong_accepted(frame: Seq<u8>, sent: i64)
    requires
        spec_check_pong(frame, sent) is Ok,
    ensures
        spec_parse_frame(frame) == Ok::<(i32, Seq<u8>), Error>((PING_PACKET, spec_i64_be(sent))),
{
    let body = spec_parse_frame(frame)->Ok_0.1;
    lemma_i64_be_unique(body);
}

/// The frame that carries `text` as a status is read back as `text`.
pub proof fn lemma_status_round_trip(text: Seq<u8>)
    requires
        vstd::utf8::valid_utf8(text),
        text.len() + 10 <= i32::MAX,
    ensures
        spec_status_text(spec_frame(STATUS_PACKET, crate::frame::spec_prefix(text))) == Ok::<
            Seq<u8>,
            Error,
        >(text),
{
    let body = crate::frame::spec_prefix(text);
    lemma_encode_len(text.len() as i32);
    lemma_encode_len(STATUS_PACKET);
    lemma_frame_round_trip(STATUS_PACKET, body);
    crate::frame::lemma_prefix_round_trip(text);
}

/// `String::from_utf8` of std. It gives a string if and only if the bytes
/// are valid UTF-8, and the string then consists of these very bytes.
#[verifier::external_body]
fn string_from_utf8(bytes: Vec<u8>) -> (res: Option<String>)
    ensures
        res is Some <==> vstd::utf8::valid_utf8(bytes@),
        res matches Some(s) ==> vstd::utf8::encode_utf8(s@) == bytes@,
{
    String::from_utf8(bytes).ok()
}

/// Builds the frame of a handshake. Fails, with `Oversized`, only where
/// the address is too long to be carried.
pub fn handshake_frame(version: i32, address: &str, port: u16, next: NextState) -> (res: Result<
    Vec<u8>,
    Error,
>)
    ensures
        match res {
            Ok(frame) => {
                &&& spec_handshake_fits(version, vstd::utf8::encode_utf8(address@), port, next)
                &&& frame@ == spec_handshake(version, vstd::utf8::encode_utf8(address@), port, next)
            },
            Err(e) => {
                &&& !spec_handshake_fits(version, vstd::utf8::encode_utf8(address@), port, next)
                &&& e == Error::Framing(FramingFault::Oversized)
            },
        },
{
    let name = address.as_bytes();
    if name.len() > i32::MAX as usize {
        return Err(Error::Framing(FramingFault::Oversized));
    }
    let mut body = convert_i32_to_varint(version);
    let name_len = convert_i32_to_varint(name.len() as i32);
    append_bytes(&mut body, name_len.as_slice());
    append_bytes(&mut body, name);
    put_u16_be(&mut body, port);
    let state = convert_i32_to_varint(next.code());
    append_bytes(&mut body, state.as_slice());
    assert(body@ =~= spec_handshake_body(version, vstd::utf8::encode_utf8(address@), port, next));
    build_frame(STATUS_PACKET, body.as_slice())
}

/// Builds the frame of a status request.
pub fn status_request_frame() -> (frame: Vec<u8>)
    ensures
        frame@ == spec_status_request(),
{
    let body: Vec<u8> = Vec::new();
    proof {
        lemma_ping_fits(0);
    }
    frame_of(STATUS_PACKET, body.as_slice())
}

/// Builds the frame of a ping that carries `payload`.
pub fn ping_frame(payload: i64) -> (frame: Vec<u8>)
    ensures
        frame@ == spec_ping(payload),
{
    let mut body: Vec<u8> = Vec::new();
    put_i64_be(&mut body, payload);
    proof {
        lemma_ping_fits(payload);
        assert(body@ =~= spec_i64_be(payload));
    }
    frame_of(PING_PACKET, body.as_slice())
}

/// Reads the status text out of the frame of a status response.
pub fn read_status(frame: &[u8]) -> (res: Result<String, Error>)
    ensures
        match res {
            Ok(text) => spec_status_text(frame@) == Ok::<Seq<u8>, Error>(
                vstd::utf8::encode_utf8(text@),
            ),
            Err(e) => spec_status_text(frame@) == Err::<Seq<u8>, Error>(e),
        },
{
    let packet = match parse_frame(frame) {
        Ok(p) => p,
        Err(e) => { return Err(e); },
    };
    if packet.id != STATUS_PACKET {
        return Err(Error::Protocol(ProtocolFault::UnexpectedPacketId));
    }
    let text = match read_prefixed(packet.body.as_slice()) {
        Ok(t) => t,
        Err(e) => { return Err(e); },
    };
    let mut owned: Vec<u8> = Vec::new();
    append_bytes(&mut owned, text);
    assert(owned@ =~= text@);
    match string_from_utf8(owned) {
        Some(s) => Ok(s),
        None => Err(Error::Decode(DecodeFault::InvalidUtf8)),
    }
}

/// Checks the frame of a pong against the payload that the ping carried.
pub fn check_pong(frame: &[u8], sent: i64) -> (res: Result<(), Error>)
    ensures
        res == spec_check_pong(frame@, sent),
{
    let packet = match parse_frame(frame) {
        Ok(p) => p,
        Err(e) => { return Err(e); },
    };
    if packet.id != PING_PACKET {
        return Err(Error::Protocol(ProtocolFault::UnexpectedPacketId));
    }
    if packet.body.len() < 8 {
        return Err(Error::Framing(FramingFault::UnexpectedEnd));
    }
    match get_i64_be(packet.body.as_slice()) {
        None => Err(Error::Framing(FramingFault::TrailingBytes)),
        Some(answered) => if answered != sent {
            Err(Error::Protocol(ProtocolFault::PongMismatch))
        } else {
            Ok(())
        },
    }
}

/// What a step that belongs to the state `wanted` answers, before it
/// looks at anything else, to a session in the state `actual`: it goes
/// ahead in its own state, finds the transport gone in a closed session,
/// and is out of order in any other.
pub open spec fn spec_gate(actual: State, wanted: State) -> Result<(), Error> {
    if actual == wanted {
        Ok(())
    } else if actual == State::Closed {
        Err(Error::Transport)
    } else {
        Err(Error::Protocol(ProtocolFault::OutOfOrder))
    }
}

/// A closed session answers every step of an exchange with a transport
/// error: a session is used once.
pub proof fn lemma_closed_is_final(wanted: State)
    requires
        wanted != State::Closed,
    ensures
        spec_gate(State::Closed, wanted) == Err::<(), Error>(Error::Transport),
{
}

/// What a session hands back when the status has arrived.
#[derive(Debug, Clone, PartialEq, Eq)]
pub struct StatusReply {
    /// The status, as the JSON text that the server sent.
    pub text: String,
    /// The frame of the ping to write next, where one was asked for.
    pub ping: Option<Vec<u8>>,
}

/// One status exchange. Each step checks that it is its turn, and any
/// failure closes the session.
#[derive(Debug)]
pub struct Session {
    state: State,
    sent: i64,
}

impl Session {
    /// Where the session stands.
    pub closed spec fn spec_state(&self) -> State {
        self.state
    }

    /// The payload of the ping that is out, while a pong is awaited.
    pub closed spec fn spec_sent(&self) -> i64 {
        self.sent
    }

    /// A session on which nothing has happened yet.
    pub fn new() -> (s: Session)
        ensures
            s.spec_state() == State::Disconnected,
    {
        Session { state: State::Disconnected, sent: 0 }
    }

    /// Where the session stands.
    pub fn state(&self) -> (st: State)
        ensures
            st == self.spec_state(),
    {
        self.state
    }

    /// Checks that the session is in the state `wanted`, and closes it
    /// where it is not.
    fn gate(&mut self, wanted: State) -> (res: Result<(), Error>)
        ensures
            res == spec_gate(old(self).spec_state(), wanted),
            res is Ok ==> *final(self) == *old(self),
            res is Err ==> final(self).spec_state() == State::Closed,
    {
        if self.state == wanted {
            Ok(())
        } else if self.state == State::Closed {
            Err(Error::Transport)
        } else {
            self.state = State::Closed;
            Err(Error::Protocol(ProtocolFault::OutOfOrder))
        }
    }

    /// The transport is connected: the handshake may go out.
    pub fn connected(&mut self) -> (res: Result<(), Error>)
        ensures
            res == spec_gate(old(self).spec_state(), State::Disconnected),
            final(self).spec_state() == (if res is Ok {
                State::Handshaking
            } else {
                State::Closed
            }),
    {
        match self.gate(State::Disconnected) {
            Ok(()) => {
                self.state = State::Handshaking;
                Ok(())
            },
            Err(e) => Err(e),
        }
    }

    /// Hands out what opens the exchange, to be written in one piece: the
    /// frame of a handshake that asks for the status, then the frame of
    /// the status request. Fails where it is not the session's turn, or
    /// where the address is too long to be carried.
    pub fn handshake(&mut self, version: i32, address: &str, port: u16) -> (res: Result<
        Vec<u8>,
        Error,
    >)
        ensures
            match spec_gate(old(self).spec_state(), State::Handshaking) {
                Err(e) => res == Err::<Vec<u8>, Error>(e),
                Ok(_) => match res {
                    Ok(bytes) => {
                        &&& spec_handshake_fits(
                            version,
                            vstd::utf8::encode_utf8(address@),
                            port,
                            NextState::Status,
                        )
                        &&& bytes@ == spec_handshake(
                            version,
                            vstd::utf8::encode_utf8(address@),
                            port,
                            NextState::Status,
                        ) + spec_status_request()
                    },
                    Err(e) => {
                        &&& !spec_handshake_fits(
                            version,
                            vstd::utf8::encode_utf8(address@),
                            port,
                            NextState::Status,
                        )
                        &&& e == Error::Framing(FramingFault::Oversized)
                    },
                },
            },
            final(self).spec_state() == (if res is Ok {
                State::AwaitingStatus
            } else {
                State::Closed
            }),
    {
        match self.gate(State::Handshaking) {
            Ok(()) => {},
            Err(e) => { return Err(e); },
        }
        match handshake_frame(version, address, port, NextState::Status) {
            Ok(mut bytes) => {
                let request = status_request_frame();
                append_bytes(&mut bytes, request.as_slice());
                self.state = State::AwaitingStatus;
                Ok(bytes)
            },
            Err(e) => {
                self.state = State::Closed;
                Err(e)
            },
        }
    }

    /// Takes the frame of the status response and hands back the status
    /// text. With `ping` given, the frame of a ping that carries it comes
    /// back too, to be written next, and the session awaits the pong;
    /// without, the session is closed.
    pub fn receive_status(&mut self, frame: &[u8], ping: Option<i64>) -> (res: Result<
        StatusReply,
        Error,
    >)
        ensures
            match spec_gate(old(self).spec_state(), State::AwaitingStatus) {
                Err(e) => res == Err::<StatusReply, Error>(e),
                Ok(_) => match res {
                    Ok(reply) => {
                        &&& spec_status_text(frame@) == Ok::<Seq<u8>, Error>(
                            vstd::utf8::encode_utf8(reply.text@),
                        )
                        &&& match ping {
                            Some(payload) => reply.ping matches Some(f) && f@ == spec_ping(
                                payload,
                            ),
                            None => reply.ping is None,
                        }
                    },
                    Err(e) => spec_status_text(frame@) == Err::<Seq<u8>, Error>(e),
                },
            },
            final(self).spec_state() == (if res is Ok && ping is Some {
                State::AwaitingPong
            } else {
                State::Closed
            }),
            res is Ok && ping is Some ==> final(self).spec_sent() == ping->0,
    {
        match self.gate(State::AwaitingStatus) {
            Ok(()) => {},
            Err(e) => { return Err(e); },
        }
        match read_status(frame) {
            Ok(text) => match ping {
                Some(payload) => {
                    self.state = State::AwaitingPong;
                    self.sent = payload;
                    Ok(StatusReply { text, ping: Some(ping_frame(payload)) })
                },
                None => {
                    self.state = State::Closed;
                    Ok(StatusReply { text, ping: None })
                },
            },
            Err(e) => {
                self.state = State::Closed;
                Err(e)
            },
        }
    }

    /// Takes the frame of the pong, checks it against the ping that is
    /// out, and closes the session.
    pub fn receive_pong(&mut self, frame: &[u8]) -> (res: Result<(), Error>)
        ensures
            res == (match spec_gate(old(self).spec_state(), State::AwaitingPong) {
                Err(e) => Err::<(), Error>(e),
                Ok(_) => spec_check_pong(frame@, old(self).spec_sent()),
            }),
            final(self).spec_state() == State::Closed,
    {
        match self.gate(State::AwaitingPong) {
            Ok(()) => {},
            Err(e) => { return Err(e); },
        }
        self.state = State::Closed;
        check_pong(frame, self.sent)
    }

    /// Closes the session, whatever its state: the transport failed, or
    /// the caller is done.
    pub fn close(&mut self)
        ensures
            final(self).spec_state() == State::Closed,
    {
        self.state = State::Closed;
    }
}

} // verus!
