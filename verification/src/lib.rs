//! Receiver side of the BIP78 payjoin negotiation protocol.
//!
//! A sender submits an original PSBT; the receiver walks it through a
//! linear sequence of anti-fraud and anti-surveillance checks, augments
//! it with its own input, applies a fee adjustment and returns the
//! counter-proposal.  Transaction parsing, consensus encoding and the
//! PSBT manipulation itself are delegated to the `payjoin` crate; this
//! crate owns the pipeline: the consume-once handle discipline, the
//! decision rules the callback answers feed, and the fee barrier.

pub mod bridge;
pub mod decimal;
pub mod error;
pub mod guard;
pub mod receive;
pub mod types;
