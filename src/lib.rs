//! Session and authentication lifecycle for a brokerage trading client:
//! OAuth1 credentials, their on-disk cache record, the in-memory credential
//! store and the state machine that decides when to run the full three-legged
//! flow, when to renew silently and when the cached token is still good.
//! Beside it, the small pieces of the terminal interface that carry logic of
//! their own: key bindings and list navigation, table headers, the events
//! that pass between the interface and the network worker, and the names of
//! order kinds and actions that the order endpoints use.
pub mod clock;
pub mod config;
pub mod credentials;
pub mod error;
pub mod event;
pub mod keys;
pub mod network;
pub mod orders;
pub mod session;
pub mod signing;
pub mod store;
pub mod table;
