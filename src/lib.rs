//! Newsletter delivery core: subscription tokens, confirmation, idempotent
//! publishing and a retry-safe delivery queue.
pub mod confirm;
pub mod delivery;
pub mod error_chain;
pub mod laws;
pub mod newsletter;
pub mod response;
pub mod store;
pub mod token;
