//! WebSocket protocol layer: the client handshake that upgrades an HTTP
//! connection, and the codec that turns a byte stream into messages and back.

pub mod assembler;
pub mod codec;
pub mod endian;
pub mod error;
pub mod frame;
pub mod handshake;
pub mod mask;
pub mod message;
pub mod text;
pub mod upgrade;
pub mod ws;
