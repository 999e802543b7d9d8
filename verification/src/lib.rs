//! Watches an ordered stream of blockchain blocks and reports every
//! account-state mutation that touches a caller-specified set of accounts.
//!
//! The library is a pure filter-and-forward stage: block messages go in,
//! match events come out, in discovery order. Feed and sink I/O live outside.

pub mod account;
pub mod matcher;
pub mod pipeline;
pub mod record;

pub use account::AccountId;
pub use account::WatchError;
pub use account::WatchList;
pub use matcher::is_watched;
pub use matcher::owner_of;
pub use pipeline::process_block;
pub use pipeline::process_blocks;
pub use record::BlockMessage;
pub use record::ChangeKind;
pub use record::MatchEvent;
pub use record::ShardRecord;
pub use record::StateChangeRecord;
