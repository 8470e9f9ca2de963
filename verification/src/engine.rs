//! The packet pipeline: what becomes of each captured packet.

pub mod delayed_inject;
pub mod dispatch;
pub mod flow_affinity;
pub mod journey;
pub mod latency;
pub mod locality;
pub mod outbound;
pub mod packet;
pub mod session_ticket;
pub mod settings;
pub mod stats;
pub mod transmit;
