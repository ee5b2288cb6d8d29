//! The failures of a status exchange, one variant per cause.

use vstd::prelude::*;

verus! {

/// Why bytes could not be cut into integers and frames.
#[derive(Debug, Clone, Copy, PartialEq, Eq, Structural)]
pub enum FramingFault {
    /// Five bytes were read and each of them carried the continuation bit.
    VarIntTooLong,
    /// The bytes ended before the value being read was complete.
    UnexpectedEnd,
    /// A length prefix decoded to a negative number.
    NegativeLength,
    /// Bytes were left over after the frame that the length prefix announced.
    TrailingBytes,
    /// The payload is longer than a length prefix can announce.
    Oversized,
}

/// How a peer, or a caller, left the order of the exchange.
#[derive(Debug, Clone, Copy, PartialEq, Eq, Structural)]
pub enum ProtocolFault {
    /// A packet arrived whose identifier is not the one the current state waits for.
    UnexpectedPacketId,
    /// The pong did not carry the payload of the ping.
    PongMismatch,
    /// An exchange was asked for in a state that does not allow it.
    OutOfOrder,
}

/// Why the body of a status response could not be read.
#[derive(Debug, Clone, Copy, PartialEq, Eq, Structural)]
pub enum DecodeFault {
    /// The text of the response is not valid UTF-8.
    InvalidUtf8,
    /// The text is not JSON.
    InvalidJson,
    /// A field that a status must have is not there.
    MissingField,
    /// A field holds something other than what it must hold.
    UnexpectedShape,
}

/// The clause of the favicon's data URI that was not met.
#[derive(Debug, Clone, Copy, PartialEq, Eq, Structural)]
pub enum FaviconFault {
    /// The text is not a URL at all.
    NotAUrl,
    /// The scheme is not `data`.
    Scheme,
    /// The URL names an authority.
    Authority,
    /// The URL has a query.
    Query,
    /// The URL has a fragment.
    Fragment,
    /// No comma separates the header from the payload.
    MissingPayload,
    /// The header names no encoding, or one other than `base64`.
    Encoding,
    /// The media type is not `image/png`.
    MediaType,
    /// The payload is not valid base64.
    Payload,
}

/// What the chat renderer met and cannot show.
#[derive(Debug, Clone, Copy, PartialEq, Eq, Structural)]
pub enum RenderFault {
    /// The obfuscated style (`k`), which no terminal can show.
    ObfuscatedStyle,
    /// An escape character followed by a character that names no colour or style.
    UnknownCode,
    /// An escape character at the very end of the text.
    DanglingEscape,
}

/// Every way in which a status exchange can fail.
#[derive(Debug, Clone, Copy, PartialEq, Eq, Structural)]
pub enum Error {
    /// Connecting, reading or writing failed, or the session is closed.
    Transport,
    /// The bytes on the wire do not form integers and frames.
    Framing(FramingFault),
    /// The order of the exchange was not kept.
    Protocol(ProtocolFault),
    /// The status body could not be decoded.
    Decode(DecodeFault),
    /// The favicon is not a base64 PNG data URI.
    Favicon(FaviconFault),
    /// The description holds something the renderer cannot show.
    UnsupportedRender(RenderFault),
}

} // verus!
