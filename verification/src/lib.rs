//! Verified core of an IBC solo machine: the decisions, parsers and state
//! transitions that drive the solo machine's client, connection, channel and
//! token-transfer flows against an IBC enabled chain.

pub mod output;
pub mod numeric;
pub mod text;
pub mod packets;
pub mod chain;
pub mod events;
pub mod duration;
pub mod hexcodec;
pub mod ratio;
pub mod decimal;
pub mod handshake;
pub mod signing;
pub mod transaction;
pub mod setup;
pub mod packing;
pub mod command;
pub mod bank;
pub mod requests;
pub mod handler;
pub mod dispatch;
pub mod credit;
