//! Client library for the Revolt chat service.
//!
//! The heart of the crate is the gateway: the long-lived duplex event stream
//! that carries typed events between client and server.  The protocol core is
//! written sans-IO: the wire codec ([`codec`]), the per-frame decisions of the
//! inbound loop and the queue discipline of the connection ([`gateway`]) are
//! all pure, verified code.  An asynchronous driver owns the socket and the
//! background loops and feeds this core.
//!
//! The remaining modules hold the data model of the wire protocol.

pub mod attachment;
pub mod authentication;
pub mod bot;
pub mod builder;
pub mod channel;
pub mod codec;
pub mod embed;
pub mod emoji;
pub mod error;
pub mod event;
pub mod gateway;
pub mod instance;
pub mod json;
pub mod member;
pub mod message;
pub mod payload;
pub mod permission;
pub mod server;
pub mod text;
pub mod user;
pub mod voice;
