//! Core of a distributed FUSE filesystem node.
//!
//! Two subsystems live here, each a pure function of the bytes and values
//! it is handed, and each verified against its contract.
//!
//! The first decodes the packets of the kernel driver. `abi`, `opcode` and
//! `records` lay down the wire format, `argument` is the cursor that walks
//! over a packet, and `request` turns a packet into a `Request`.
//! `decode_laws` states what holds of every packet, and `describe` puts a
//! request into a line for the log.
//!
//! The second is the server that keeps the metadata of the nodes of a
//! cluster in step. `peer` names the messages, `wire`, `codec` and
//! `payload` carry them as bytes, and `connection` ties the two together.
//! `meta` holds the metadata graph and `server` the handlers that work on
//! it; `dispatch` and `acceptor` decide what the server does next, and
//! `server_laws` states what the handlers keep true.
//!
//! Nothing here opens a socket, takes a lock or starts a thread: the
//! caller does so, as `dispatch` and `acceptor` tell it to.

pub mod abi;
pub mod acceptor;
pub mod argument;
pub mod bytemap;
pub mod bytes;
pub mod codec;
pub mod connection;
pub mod decode_laws;
pub mod describe;
pub mod dispatch;
pub mod error;
pub mod meta;
pub mod opcode;
pub mod payload;
pub mod peer;
pub mod records;
pub mod request;
pub mod server;
pub mod server_laws;
pub mod text;
pub mod wire;
