//! A verified accounting ledger for advertisement campaigns.
//!
//! Campaigns are created with a fixed budget and a fixed per-view reward; a
//! view event debits the campaign's remaining budget and credits the viewer's
//! reward balance; two accessors read the ledgers back. The contracts pin the
//! budget-consumption rules: ids are minted consecutively and never reused,
//! every accepted view consumes exactly one payout, a campaign deactivates
//! permanently once it can no longer fund a full payout, and reads never
//! change stored state.
//!
//! Identity verification and durable persistence are host capabilities: the
//! host authenticates a caller as the holder of an identity token before
//! invoking an operation, and files the records under the key spaces that
//! `AdBook` and `RewardBook` describe.

pub mod laws;
pub mod ledger;
pub mod records;

pub use ledger::AdBook;
pub use ledger::DecentralizedAdContract;
pub use ledger::RewardBook;
pub use records::AccountId;
pub use records::AdError;
pub use records::Advertisement;
pub use records::UserRewards;
