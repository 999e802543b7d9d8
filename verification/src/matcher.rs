//! The change matcher: owner extraction and watch-list membership.
//!
//! `owner_of` is total over the closed set of kinds — every kind is matched
//! explicitly, with no default branch — and returns exactly the account
//! identifier embedded in the record. `is_watched` is nothing more than
//! membership of that owner in the watch-list.

use vstd::prelude::*;

use crate::account::AccountId;
use crate::account::WatchList;
use crate::record::ChangeKind;
use crate::record::StateChangeRecord;
use crate::record::StateChangeView;

verus! {

/// The account identifier embedded in the record, whatever its kind.
pub open spec fn spec_owner(r: StateChangeView) -> Seq<char> {
    match r {
        StateChangeView::AccountUpdate { account_id, .. } => account_id,
        StateChangeView::AccountDeletion { account_id } => account_id,
        StateChangeView::AccessKeyUpdate { account_id, .. } => account_id,
        StateChangeView::AccessKeyDeletion { account_id, .. } => account_id,
        StateChangeView::DataUpdate { account_id, .. } => account_id,
        StateChangeView::DataDeletion { account_id, .. } => account_id,
        StateChangeView::ContractCodeUpdate { account_id, .. } => account_id,
        StateChangeView::ContractCodeDeletion { account_id } => account_id,
    }
}

/// The tag of the record's kind.
pub open spec fn spec_kind(r: StateChangeView) -> ChangeKind {
    match r {
        StateChangeView::AccountUpdate { .. } => ChangeKind::AccountUpdate,
        StateChangeView::AccountDeletion { .. } => ChangeKind::AccountDeletion,
        StateChangeView::AccessKeyUpdate { .. } => ChangeKind::AccessKeyUpdate,
        StateChangeView::AccessKeyDeletion { .. } => ChangeKind::AccessKeyDeletion,
        StateChangeView::DataUpdate { .. } => ChangeKind::DataUpdate,
        StateChangeView::DataDeletion { .. } => ChangeKind::DataDeletion,
        StateChangeView::ContractCodeUpdate { .. } => ChangeKind::ContractCodeUpdate,
        StateChangeView::ContractCodeDeletion { .. } => ChangeKind::ContractCodeDeletion,
    }
}

/// The record's owner is a member of the watch-list.
pub open spec fn spec_is_watched(r: StateChangeView, watched: Seq<Seq<char>>) -> bool {
    watched.contains(spec_owner(r))
}

/// The owning account of a record: total over the eight kinds.
pub fn owner_of(r: &StateChangeRecord) -> (id: &AccountId)
    ensures
        id@ == spec_owner(r@),
{
    match r {
        StateChangeRecord::AccountUpdate { account_id, .. } => account_id,
        StateChangeRecord::AccountDeletion { account_id } => account_id,
        StateChangeRecord::AccessKeyUpdate { account_id, .. } => account_id,
        StateChangeRecord::AccessKeyDeletion { account_id, .. } => account_id,
        StateChangeRecord::DataUpdate { account_id, .. } => account_id,
        StateChangeRecord::DataDeletion { account_id, .. } => account_id,
        StateChangeRecord::ContractCodeUpdate { account_id, .. } => account_id,
        StateChangeRecord::ContractCodeDeletion { account_id } => account_id,
    }
}

/// The kind tag of a record.
pub fn change_kind(r: &StateChangeRecord) -> (k: ChangeKind)
    ensures
        k == spec_kind(r@),
{
    match r {
        StateChangeRecord::AccountUpdate { .. } => ChangeKind::AccountUpdate,
        StateChangeRecord::AccountDeletion { .. } => ChangeKind::AccountDeletion,
        StateChangeRecord::AccessKeyUpdate { .. } => ChangeKind::AccessKeyUpdate,
        StateChangeRecord::AccessKeyDeletion { .. } => ChangeKind::AccessKeyDeletion,
        StateChangeRecord::DataUpdate { .. } => ChangeKind::DataUpdate,
        StateChangeRecord::DataDeletion { .. } => ChangeKind::DataDeletion,
        StateChangeRecord::ContractCodeUpdate { .. } => ChangeKind::ContractCodeUpdate,
        StateChangeRecord::ContractCodeDeletion { .. } => ChangeKind::ContractCodeDeletion,
    }
}

/// Does the record touch a watched account?
pub fn is_watched(r: &StateChangeRecord, watched: &WatchList) -> (b: bool)
    ensures
        b == spec_is_watched(r@, watched@),
{
    watched.contains(owner_of(r))
}

/// Law: for every one of the eight kinds, the owner is exactly the account
/// identifier embedded in that kind's payload.
pub proof fn lemma_owner_is_embedded_id(r: StateChangeView)
    ensures
        r matches StateChangeView::AccountUpdate { account_id, .. } ==> spec_owner(r)
            == account_id,
        r matches StateChangeView::AccountDeletion { account_id } ==> spec_owner(r) == account_id,
        r matches StateChangeView::AccessKeyUpdate { account_id, .. } ==> spec_owner(r)
            == account_id,
        r matches StateChangeView::AccessKeyDeletion { account_id, .. } ==> spec_owner(r)
            == account_id,
        r matches StateChangeView::DataUpdate { account_id, .. } ==> spec_owner(r) == account_id,
        r matches StateChangeView::DataDeletion { account_id, .. } ==> spec_owner(r) == account_id,
        r matches StateChangeView::ContractCodeUpdate { account_id, .. } ==> spec_owner(r)
            == account_id,
        r matches StateChangeView::ContractCodeDeletion { account_id } ==> spec_owner(r)
            == account_id,
{
}

/// Law: a record whose embedded identifier satisfies the account grammar
/// never has an empty owner.
pub proof fn lemma_owner_nonempty(r: StateChangeView)
    requires
        crate::account::valid_account_seq(spec_owner(r)),
    ensures
        spec_owner(r).len() > 0,
{
}

/// Law: a record is watched exactly when its owner is a member of the
/// watch-list.
pub proof fn lemma_watched_iff_owner_in_list(r: StateChangeView, watched: Seq<Seq<char>>)
    ensures
        spec_is_watched(r, watched) <==> watched.contains(spec_owner(r)),
{
}

/// Law: the empty watch-list matches no record at all.
pub proof fn lemma_empty_watch_list_never_matches(r: StateChangeView, watched: Seq<Seq<char>>)
    requires
        watched.len() == 0,
    ensures
        !spec_is_watched(r, watched),
{
}

} // verus!
