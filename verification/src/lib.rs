//! Verified core of a LAN work-distribution channel: the wire framing of
//! messages, node naming, peer discovery filtering, and the per-connection
//! decision logic of producers and consumers.
pub mod consumer;
pub mod discovery;
pub mod message;
pub mod node;
pub mod producer;
pub mod wire;
pub mod work;
