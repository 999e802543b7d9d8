//! The record model: state-change records, shards, block messages and the
//! emitted match events, together with their mathematical views.
//!
//! A `StateChangeRecord` is a closed sum of eight mutation kinds. Every kind
//! carries the owning account identifier; matching never looks further into
//! the payload. The set being closed, owner extraction is total by
//! exhaustive match, and a newly added kind is a compile-time gap, not a
//! silent fallthrough. A feed record outside this set cannot be represented
//! at all: the converter at the feed boundary leaves it out, which treats
//! it as not watched — the safe forward-compatibility policy.

use vstd::prelude::*;

use crate::account::AccountId;

verus! {

/// The tag naming one of the eight mutation kinds.
#[derive(Clone, Copy, PartialEq, Eq, Structural, Debug)]
pub enum ChangeKind {
    AccountUpdate,
    AccountDeletion,
    AccessKeyUpdate,
    AccessKeyDeletion,
    DataUpdate,
    DataDeletion,
    ContractCodeUpdate,
    ContractCodeDeletion,
}

/// One mutation to on-chain state: the owning account plus the
/// kind-specific payload.
#[derive(Debug)]
pub enum StateChangeRecord {
    AccountUpdate { account_id: AccountId, balance: u128, storage_usage: u64 },
    AccountDeletion { account_id: AccountId },
    AccessKeyUpdate { account_id: AccountId, public_key: Vec<u8>, nonce: u64 },
    AccessKeyDeletion { account_id: AccountId, public_key: Vec<u8> },
    DataUpdate { account_id: AccountId, key: Vec<u8>, value: Vec<u8> },
    DataDeletion { account_id: AccountId, key: Vec<u8> },
    ContractCodeUpdate { account_id: AccountId, code: Vec<u8> },
    ContractCodeDeletion { account_id: AccountId },
}

/// The mathematical value of a `StateChangeRecord`: the same shape over
/// character and byte sequences.
pub enum StateChangeView {
    AccountUpdate { account_id: Seq<char>, balance: u128, storage_usage: u64 },
    AccountDeletion { account_id: Seq<char> },
    AccessKeyUpdate { account_id: Seq<char>, public_key: Seq<u8>, nonce: u64 },
    AccessKeyDeletion { account_id: Seq<char>, public_key: Seq<u8> },
    DataUpdate { account_id: Seq<char>, key: Seq<u8>, value: Seq<u8> },
    DataDeletion { account_id: Seq<char>, key: Seq<u8> },
    ContractCodeUpdate { account_id: Seq<char>, code: Seq<u8> },
    ContractCodeDeletion { account_id: Seq<char> },
}

impl View for StateChangeRecord {
    type V = StateChangeView;

    open spec fn view(&self) -> StateChangeView {
        match self {
            StateChangeRecord::AccountUpdate { account_id, balance, storage_usage } => (
                StateChangeView::AccountUpdate {
                    account_id: account_id@,
                    balance: *balance,
                    storage_usage: *storage_usage,
                }
            ),
            StateChangeRecord::AccountDeletion { account_id } => (
                StateChangeView::AccountDeletion { account_id: account_id@ }
            ),
            StateChangeRecord::AccessKeyUpdate { account_id, public_key, nonce } => (
                StateChangeView::AccessKeyUpdate {
                    account_id: account_id@,
                    public_key: public_key@,
                    nonce: *nonce,
                }
            ),
            StateChangeRecord::AccessKeyDeletion { account_id, public_key } => (
                StateChangeView::AccessKeyDeletion {
                    account_id: account_id@,
                    public_key: public_key@,
                }
            ),
            StateChangeRecord::DataUpdate { account_id, key, value } => (
                StateChangeView::DataUpdate { account_id: account_id@, key: key@, value: value@ }
            ),
            StateChangeRecord::DataDeletion { account_id, key } => (
                StateChangeView::DataDeletion { account_id: account_id@, key: key@ }
            ),
            StateChangeRecord::ContractCodeUpdate { account_id, code } => (
                StateChangeView::ContractCodeUpdate { account_id: account_id@, code: code@ }
            ),
            StateChangeRecord::ContractCodeDeletion { account_id } => (
                StateChangeView::ContractCodeDeletion { account_id: account_id@ }
            ),
        }
    }
}

impl StateChangeRecord {
    /// A copy whose mathematical value is the same.
    pub fn duplicate(&self) -> (r: StateChangeRecord)
        ensures
            r@ == self@,
    {
        match self {
            StateChangeRecord::AccountUpdate { account_id, balance, storage_usage } => (
                StateChangeRecord::AccountUpdate {
                    account_id: account_id.duplicate(),
                    balance: *balance,
                    storage_usage: *storage_usage,
                }
            ),
            StateChangeRecord::AccountDeletion { account_id } => (
                StateChangeRecord::AccountDeletion { account_id: account_id.duplicate() }
            ),
            StateChangeRecord::AccessKeyUpdate { account_id, public_key, nonce } => (
                StateChangeRecord::AccessKeyUpdate {
                    account_id: account_id.duplicate(),
                    public_key: vstd::slice::slice_to_vec(public_key.as_slice()),
                    nonce: *nonce,
                }
            ),
            StateChangeRecord::AccessKeyDeletion { account_id, public_key } => (
                StateChangeRecord::AccessKeyDeletion {
                    account_id: account_id.duplicate(),
                    public_key: vstd::slice::slice_to_vec(public_key.as_slice()),
                }
            ),
            StateChangeRecord::DataUpdate { account_id, key, value } => (
                StateChangeRecord::DataUpdate {
                    account_id: account_id.duplicate(),
                    key: vstd::slice::slice_to_vec(key.as_slice()),
                    value: vstd::slice::slice_to_vec(value.as_slice()),
                }
            ),
            StateChangeRecord::DataDeletion { account_id, key } => (
                StateChangeRecord::DataDeletion {
                    account_id: account_id.duplicate(),
                    key: vstd::slice::slice_to_vec(key.as_slice()),
                }
            ),
            StateChangeRecord::ContractCodeUpdate { account_id, code } => (
                StateChangeRecord::ContractCodeUpdate {
                    account_id: account_id.duplicate(),
                    code: vstd::slice::slice_to_vec(code.as_slice()),
                }
            ),
            StateChangeRecord::ContractCodeDeletion { account_id } => (
                StateChangeRecord::ContractCodeDeletion { account_id: account_id.duplicate() }
            ),
        }
    }
}

/// The ordered state changes of one shard of one block, in execution order.
#[derive(Debug)]
pub struct ShardRecord {
    pub state_changes: Vec<StateChangeRecord>,
}

impl View for ShardRecord {
    type V = Seq<StateChangeView>;

    open spec fn view(&self) -> Seq<StateChangeView> {
        self.state_changes@.map_values(|r: StateChangeRecord| r@)
    }
}

/// The mathematical value of a `BlockMessage`.
pub struct BlockView {
    pub height: u64,
    pub shards: Seq<Seq<StateChangeView>>,
}

/// One block as delivered by the feed: its height and its shards, in
/// feed-delivered order.
#[derive(Debug)]
pub struct BlockMessage {
    pub height: u64,
    pub shards: Vec<ShardRecord>,
}

impl View for BlockMessage {
    type V = BlockView;

    open spec fn view(&self) -> BlockView {
        BlockView { height: self.height, shards: self.shards@.map_values(|s: ShardRecord| s@) }
    }
}

/// The mathematical value of a `MatchEvent`.
pub struct MatchEventView {
    pub height: u64,
    pub kind: ChangeKind,
    pub record: StateChangeView,
}

/// One matched record, tagged with the height of the block it came from
/// and its mutation kind.
#[derive(Debug)]
pub struct MatchEvent {
    pub height: u64,
    pub kind: ChangeKind,
    pub record: StateChangeRecord,
}

impl View for MatchEvent {
    type V = MatchEventView;

    open spec fn view(&self) -> MatchEventView {
        MatchEventView { height: self.height, kind: self.kind, record: self.record@ }
    }
}

} // verus!
