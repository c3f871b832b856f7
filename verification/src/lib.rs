//! Batch channel-open coordinator for a payment-channel network node.
//!
//! A batch of open-channel requests is driven through peer-connectivity
//! checks and per-channel initiation, the funding obligations announced on
//! the shared protocol-event bus are collected under a bounded wait, a
//! single shared funding transaction is assembled from them, its
//! exactly-once broadcast is arranged through a reference-counting
//! debouncer, and one definitive result is produced per request, in
//! request order. Request intake, correlation, assembly arithmetic and
//! dispatch decisions are verified here; the surrounding peer, wallet,
//! engine and clock collaborators stay outside and hand plain values in.

pub mod assembler;
pub mod batch;
pub mod bus;
pub mod correlator;
pub mod dispatch;
pub mod errors;
pub mod events;
pub mod initiator;
pub mod request;

pub use errors::Error;
pub use events::EventFilter;
pub use events::ProtocolEvent;
