//! Connection lifecycle management for a pool of PostgreSQL connections.
//!
//! A pooling framework asks a [`manager::Manager`] to create connections and
//! to recycle the ones handed back to it; every connection is wrapped in a
//! [`client::CachedClient`] that remembers the statements prepared on it, and
//! [`session`] shows what that memory is good for over a client's whole life.
//! All network traffic is performed by the caller: the functions of this
//! crate decide what has to be sent next and what each answer means.

pub mod driver;
pub mod client;
pub mod manager;
pub mod session;
