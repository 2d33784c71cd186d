//! A verified model of a minimal on-chain tweet record store.
//!
//! One signer may hold at most one short text record, stored at an address
//! derived deterministically from the signer's own key. The crate states and
//! proves the store's lifecycle rules: content is capped at a fixed number of
//! Unicode scalar values, a record is never overwritten, and only its author
//! can delete it. The host ledger (allocation, rent, signature checks, atomic
//! commit) is modelled as injected plain values, not reimplemented.

pub mod laws;
pub mod record;
pub mod store;

pub use record::Errors;
pub use record::Tweet;
pub use store::DeleteTweet;
pub use store::SendTweet;
pub use store::delete_tweet;
pub use store::send_tweet;
