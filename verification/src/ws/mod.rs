//! WebSocket connections: tickets, the connections of each user, and what clients send.

pub mod connections;
pub mod delivery;
pub mod events;
pub mod signaling;
pub mod socket;
pub mod ticket;
