//! RTP over iroh: the decisions of a media element pair that exchanges RTP
//! flows with remote nodes.

pub mod canceller;
pub mod command;
pub mod element;
pub mod flow;
pub mod global;
pub mod handshake;
pub mod irohrtpsink;
pub mod irohrtpsrc;
pub mod laws;
pub mod node;
pub mod node_map;
pub mod octets;
pub mod rtp;
pub mod state;
