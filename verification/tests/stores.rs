use ceres_governance::{AccountId, PollInfo, PollRegistry, VoteLedger, VotingInfo};

fn poll(options: u32, start: u64, end: u64) -> PollInfo {
    PollInfo { number_of_options: options, poll_start_timestamp: start, poll_end_timestamp: end }
}

fn record(option: u32, votes: u128, withdrawn: bool) -> VotingInfo {
    VotingInfo { voting_option: option, number_of_votes: votes, ceres_withdrawn: withdrawn }
}

#[test]
fn registry_returns_what_was_put() {
    let mut registry = PollRegistry::new();
    assert_eq!(registry.get(&String::from("a")), None);
    registry.put(String::from("a"), poll(2, 1, 2));
    registry.put(String::from("b"), poll(3, 4, 5));
    assert_eq!(registry.get(&String::from("a")), Some(poll(2, 1, 2)));
    assert_eq!(registry.get(&String::from("b")), Some(poll(3, 4, 5)));
    assert_eq!(registry.get(&String::from("c")), None);
}

#[test]
fn registry_put_overwrites() {
    let mut registry = PollRegistry::new();
    registry.put(String::from("a"), poll(2, 1, 2));
    registry.put(String::from("b"), poll(3, 4, 5));
    registry.put(String::from("a"), poll(0, 0, 0));
    assert_eq!(registry.get(&String::from("a")), Some(poll(0, 0, 0)));
    assert_eq!(registry.get(&String::from("b")), Some(poll(3, 4, 5)));
}

#[test]
fn ledger_returns_what_was_put() {
    let one = AccountId { bytes: [1; 32] };
    let two = AccountId { bytes: [2; 32] };
    let mut ledger = VoteLedger::new();
    assert_eq!(ledger.get(&String::from("a"), &one), None);
    ledger.put(String::from("a"), one, record(1, 10, false));
    ledger.put(String::from("a"), two, record(2, 20, false));
    ledger.put(String::from("b"), one, record(3, 30, true));
    assert_eq!(ledger.get(&String::from("a"), &one), Some(record(1, 10, false)));
    assert_eq!(ledger.get(&String::from("a"), &two), Some(record(2, 20, false)));
    assert_eq!(ledger.get(&String::from("b"), &one), Some(record(3, 30, true)));
    assert_eq!(ledger.get(&String::from("b"), &two), None);
}

#[test]
fn ledger_put_overwrites() {
    let one = AccountId { bytes: [1; 32] };
    let two = AccountId { bytes: [2; 32] };
    let mut ledger = VoteLedger::new();
    ledger.put(String::from("a"), one, record(1, 10, false));
    ledger.put(String::from("a"), two, record(2, 20, false));
    ledger.put(String::from("a"), one, record(1, 15, true));
    assert_eq!(ledger.get(&String::from("a"), &one), Some(record(1, 15, true)));
    assert_eq!(ledger.get(&String::from("a"), &two), Some(record(2, 20, false)));
}

#[test]
fn accounts_are_equal_byte_by_byte() {
    let mut bytes = [9u8; 32];
    let one = AccountId { bytes };
    assert!(one == AccountId { bytes: [9; 32] });
    bytes[0] = 8;
    assert!(one != AccountId { bytes });
    bytes[0] = 9;
    bytes[31] = 0;
    assert!(one != AccountId { bytes });
    bytes[31] = 9;
    assert!(one == AccountId { bytes });
}
