//! Client side of the Minecraft "Server List Ping" exchange: the wire
//! encoding of integers and frames, the order of the exchange, the status
//! data a server answers with, and the rendering of its description.
//!
//! Nothing here touches a socket. A caller connects, writes the bytes this
//! library hands out, reads the bytes it asks for, and hands them back.

pub mod chat;
pub mod decode;
pub mod error;
pub mod favicon;
pub mod frame;
pub mod json;
pub mod report;
pub mod session;
pub mod status;
pub mod target;
pub mod text;
pub mod varint;
pub mod wire;
