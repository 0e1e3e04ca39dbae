//! A small messaging backend: an expiring-message store, a user store, and a
//! configuration loader. Messages are stamped with a creation instant and an
//! expiration instant (`dead_time`) computed from a configured lifespan.

pub mod config;
pub mod message;
pub mod user;
