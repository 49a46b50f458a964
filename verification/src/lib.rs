//! A capability-gated escrow that sells a catalogue of uniquely identified
//! items for a fungible payment token at an administrator-controlled price.
//!
//! The crate models the custody and exchange core: two asset pools (an item
//! pool and a payment pool), the atomic swap executed on purchase, and the
//! capability tokens that authorize privileged operations. Resource kinds
//! and amounts are plain values; the surrounding host is expected to
//! allocate fresh component identifiers and to serialize calls against one
//! sale instance.

pub mod custody;
pub mod decimal;
pub mod error;
pub mod resource;
pub mod sale;
