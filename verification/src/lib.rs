//! A verified TFTP (RFC 1350) protocol engine.
//!
//! The crate provides the binary codec for the five TFTP packet kinds and
//! the block-synchronous state machines that drive one file transfer in
//! either role, together with the server's request dispatch and the client
//! driver's opening move.  All socket and file I/O stays with the caller:
//! the engine consumes and produces plain byte buffers.

pub mod client;
pub mod packet;
pub mod server;
pub mod session;
pub mod text;
pub mod wire;
