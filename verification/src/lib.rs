//! Fungible-token transfer over an acknowledged packet channel: the packet
//! lifecycle (send, receive, acknowledgement, timeout), forwarding of an inbound
//! transfer to a third chain, and the fee arithmetic on the tokens carried.

pub mod bindings;
pub mod codec;
pub mod error;
pub mod fees;
pub mod header;
pub mod host;
pub mod ibc;
pub mod middleware;
pub mod model;
pub mod protocol;
pub mod response;
pub mod types;
pub mod view;
