//! Connection managers for a pool of authenticated sessions to a graph
//! database server, with the handshake that admits a session into the pool.

pub mod errors;
pub mod messages;
pub mod handshake;
pub mod pool;
