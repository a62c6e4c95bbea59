//! A real-time signaling hub: a registry of connected peers, the routing of
//! session-negotiation messages between them, and the resilience rules of a
//! camera capture loop whose frames are published to every peer.

pub mod camera;
pub mod capture;
pub mod capture_laws;
pub mod channel;
pub mod connection;
pub mod dispatch;
pub mod message;
pub mod publisher;
pub mod registry;
pub mod routing_laws;
pub mod text;
