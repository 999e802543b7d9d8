use account_watcher::account::AccountId;
use account_watcher::account::WatchError;
use account_watcher::account::WatchList;
use account_watcher::matcher::change_kind;
use account_watcher::matcher::is_watched;
use account_watcher::matcher::owner_of;
use account_watcher::pipeline::process_block;
use account_watcher::pipeline::process_blocks;
use account_watcher::record::BlockMessage;
use account_watcher::record::ChangeKind;
use account_watcher::record::MatchEvent;
use account_watcher::record::ShardRecord;
use account_watcher::record::StateChangeRecord;

fn id(s: &str) -> AccountId {
    AccountId::new(s.to_string()).unwrap()
}

fn watch(names: &[&str]) -> WatchList {
    WatchList::new(names.iter().map(|s| s.to_string()).collect()).unwrap()
}

fn data_update(owner: &str, key: &str, value: &str) -> StateChangeRecord {
    StateChangeRecord::DataUpdate {
        account_id: id(owner),
        key: key.as_bytes().to_vec(),
        value: value.as_bytes().to_vec(),
    }
}

fn account_update(owner: &str) -> StateChangeRecord {
    StateChangeRecord::AccountUpdate { account_id: id(owner), balance: 10, storage_usage: 100 }
}

fn block(height: u64, shards: Vec<Vec<StateChangeRecord>>) -> BlockMessage {
    BlockMessage {
        height,
        shards: shards.into_iter().map(|state_changes| ShardRecord { state_changes }).collect(),
    }
}

#[test]
fn owner_of_every_kind_is_the_embedded_id() {
    let records = vec![
        StateChangeRecord::AccountUpdate { account_id: id("alice.near"), balance: 1, storage_usage: 2 },
        StateChangeRecord::AccountDeletion { account_id: id("alice.near") },
        StateChangeRecord::AccessKeyUpdate { account_id: id("alice.near"), public_key: vec![1], nonce: 7 },
        StateChangeRecord::AccessKeyDeletion { account_id: id("alice.near"), public_key: vec![1] },
        StateChangeRecord::DataUpdate { account_id: id("alice.near"), key: vec![2], value: vec![3] },
        StateChangeRecord::DataDeletion { account_id: id("alice.near"), key: vec![2] },
        StateChangeRecord::ContractCodeUpdate { account_id: id("alice.near"), code: vec![4] },
        StateChangeRecord::ContractCodeDeletion { account_id: id("alice.near") },
    ];
    assert_eq!(records.len(), 8);
    for r in &records {
        assert_eq!(owner_of(r).as_str(), "alice.near");
        assert!(!owner_of(r).as_str().is_empty());
    }
}

#[test]
fn kind_tags_follow_the_variant() {
    assert!(matches!(change_kind(&account_update("alice.near")), ChangeKind::AccountUpdate));
    assert!(matches!(change_kind(&data_update("alice.near", "k", "v")), ChangeKind::DataUpdate));
    let del = StateChangeRecord::DataDeletion { account_id: id("alice.near"), key: vec![9] };
    assert!(matches!(change_kind(&del), ChangeKind::DataDeletion));
}

#[test]
fn is_watched_is_owner_membership() {
    let w = watch(&["alice.near", "bob.near"]);
    assert!(is_watched(&account_update("alice.near"), &w));
    assert!(is_watched(&data_update("bob.near", "k", "v"), &w));
    assert!(!is_watched(&account_update("carol.near"), &w));
}

#[test]
fn empty_watch_list_matches_no_record() {
    let w = watch(&[]);
    assert_eq!(w.len(), 0);
    assert!(!is_watched(&account_update("alice.near"), &w));
    assert!(!is_watched(&data_update("bob.near", "k", "v"), &w));
}

#[test]
fn emission_order_is_discovery_order() {
    let w = watch(&["alice.near"]);
    let m0 = data_update("alice.near", "k0", "v0");
    let m1 = data_update("alice.near", "k1", "v1");
    let m2 = data_update("alice.near", "k2", "v2");
    let b = block(7, vec![vec![m0], vec![m1, m2]]);
    let events = process_block(&b, &w);
    assert_eq!(events.len(), 3);
    let keys: Vec<&[u8]> = events
        .iter()
        .map(|e| match &e.record {
            StateChangeRecord::DataUpdate { key, .. } => key.as_slice(),
            _ => panic!("unexpected kind"),
        })
        .collect();
    assert_eq!(keys, vec![b"k0".as_slice(), b"k1".as_slice(), b"k2".as_slice()]);
    for e in &events {
        assert_eq!(e.height, 7);
    }
}

#[test]
fn height_attribution_never_crosses_blocks() {
    let w = watch(&["alice.near"]);
    let b100 = block(100, vec![vec![data_update("alice.near", "a", "1")]]);
    let b101 = block(101, vec![vec![data_update("alice.near", "b", "2")]]);
    let events = process_blocks(&vec![b100, b101], &w);
    assert_eq!(events.len(), 2);
    assert_eq!(events[0].height, 100);
    assert_eq!(events[1].height, 101);
    match &events[0].record {
        StateChangeRecord::DataUpdate { key, .. } => assert_eq!(key.as_slice(), b"a"),
        _ => panic!("unexpected kind"),
    }
    match &events[1].record {
        StateChangeRecord::DataUpdate { key, .. } => assert_eq!(key.as_slice(), b"b"),
        _ => panic!("unexpected kind"),
    }
}

#[test]
fn validation_is_idempotent() {
    let first = AccountId::new("alice.near".to_string()).unwrap();
    let second = AccountId::new("alice.near".to_string()).unwrap();
    assert!(first.same_account(&second));
    let again = AccountId::new(first.as_str().to_string()).unwrap();
    assert!(again.same_account(&first));
    assert_eq!(again.as_str(), "alice.near");
}

#[test]
fn single_matching_record_among_two() {
    let w = watch(&["alice.near"]);
    let b = block(
        100,
        vec![vec![data_update("alice.near", "k", "v"), account_update("bob.near")]],
    );
    let events: Vec<MatchEvent> = process_block(&b, &w);
    assert_eq!(events.len(), 1);
    let e = &events[0];
    assert_eq!(e.height, 100);
    assert!(matches!(e.kind, ChangeKind::DataUpdate));
    match &e.record {
        StateChangeRecord::DataUpdate { account_id, key, value } => {
            assert_eq!(account_id.as_str(), "alice.near");
            assert_eq!(key.as_slice(), b"k");
            assert_eq!(value.as_slice(), b"v");
        },
        _ => panic!("wrong record emitted"),
    }
}

#[test]
fn empty_watch_list_emits_nothing() {
    let w = watch(&[]);
    let blocks = vec![
        block(1, vec![vec![data_update("alice.near", "k", "v")]]),
        block(2, vec![vec![account_update("bob.near")], vec![data_update("carol.near", "x", "y")]]),
    ];
    let events = process_blocks(&blocks, &w);
    assert!(events.is_empty());
}

#[test]
fn invalid_watch_list_entry_fails_construction() {
    let raw = vec!["alice.near".to_string(), "not a valid id!!".to_string()];
    let res = WatchList::new(raw);
    match res {
        Err(WatchError::InvalidAccountId(s)) => assert_eq!(s, "not a valid id!!"),
        Ok(_) => panic!("invalid entry was accepted"),
    }
}

#[test]
fn clean_run_with_no_matches() {
    let w = watch(&["alice.near"]);
    let blocks = vec![
        block(100, vec![vec![account_update("bob.near")]]),
        block(101, vec![]),
        block(102, vec![vec![], vec![account_update("carol.near")]]),
    ];
    let events = process_blocks(&blocks, &w);
    assert_eq!(events.len(), 0);
}

#[test]
fn account_grammar_accepts_and_rejects() {
    assert!(AccountId::new("ab".to_string()).is_ok());
    assert!(AccountId::new("alice.near".to_string()).is_ok());
    assert!(AccountId::new("a-b_c.d0".to_string()).is_ok());
    assert!(AccountId::new("0x123".to_string()).is_ok());
    let longest: String = "a".repeat(64);
    assert!(AccountId::new(longest).is_ok());

    assert!(AccountId::new(String::new()).is_err());
    assert!(AccountId::new("a".to_string()).is_err());
    assert!(AccountId::new("a".repeat(65)).is_err());
    assert!(AccountId::new("Alice.near".to_string()).is_err());
    assert!(AccountId::new(".alice".to_string()).is_err());
    assert!(AccountId::new("alice.".to_string()).is_err());
    assert!(AccountId::new("ali..ce".to_string()).is_err());
    assert!(AccountId::new("a-_b".to_string()).is_err());
    assert!(AccountId::new("alice near".to_string()).is_err());
    assert!(AccountId::new("\u{00f1}lice".to_string()).is_err());
}

#[test]
fn rejected_input_is_returned_in_the_error() {
    match AccountId::new("BAD!".to_string()) {
        Err(WatchError::InvalidAccountId(s)) => assert_eq!(s, "BAD!"),
        Ok(_) => panic!("invalid id accepted"),
    }
}

#[test]
fn duplicate_watch_entries_are_kept_and_match_once_per_record() {
    let w = watch(&["alice.near", "alice.near"]);
    assert_eq!(w.len(), 2);
    let b = block(5, vec![vec![data_update("alice.near", "k", "v")]]);
    let events = process_block(&b, &w);
    assert_eq!(events.len(), 1);
}

#[test]
fn watch_list_contains_uses_exact_equality() {
    let w = watch(&["alice.near"]);
    assert!(w.contains(&id("alice.near")));
    assert!(!w.contains(&id("alice.nea")));
    assert!(!w.contains(&id("alice.near0")));
}
