//! Building blocks of an SCMP echo probe: identifier parsing, path selection,
//! echo message construction, packet encoding, datagram encapsulation and the
//! decisions of the transmission loop.

pub mod datagram;
pub mod echo;
pub mod error;
pub mod identifier;
pub mod outside;
pub mod probe;
pub mod route;
pub mod transmit;
pub mod wire;
