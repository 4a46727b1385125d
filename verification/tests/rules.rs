use ceres_governance::rules::{check_vote, create_poll, poll_info, vote, withdraw};
use ceres_governance::{
    AccountId, Error, FundsWithdrawn, PollCreated, PollInfo, Voted, VotingInfo,
};

fn poll(options: u32, start: u64, end: u64) -> PollInfo {
    PollInfo { number_of_options: options, poll_start_timestamp: start, poll_end_timestamp: end }
}

fn record(option: u32, votes: u128, withdrawn: bool) -> VotingInfo {
    VotingInfo { voting_option: option, number_of_votes: votes, ceres_withdrawn: withdrawn }
}

fn id() -> String {
    String::from("poll")
}

fn voter() -> AccountId {
    AccountId { bytes: [3; 32] }
}

fn voted(option: u32, votes: u128) -> Voted {
    Voted { poll_id: id(), voter: voter(), voting_option: option, number_of_votes: votes }
}

#[test]
fn default_records_are_empty() {
    assert_eq!(PollInfo::default(), poll(0, 0, 0));
    assert_eq!(VotingInfo::default(), record(0, 0, false));
}

#[test]
fn create_rule_builds_the_poll_and_its_notification() {
    assert_eq!(
        create_poll(&PollInfo::default(), id(), 3, 10, 20, 10),
        Ok((
            poll(3, 10, 20),
            PollCreated {
                poll_id: id(),
                number_of_options: 3,
                poll_start_timestamp: 10,
                poll_end_timestamp: 20,
            }
        ))
    );
    assert_eq!(
        create_poll(&poll(0, 7, 8), String::new(), 2, 0, 1, 0),
        Ok((
            poll(2, 0, 1),
            PollCreated {
                poll_id: String::new(),
                number_of_options: 2,
                poll_start_timestamp: 0,
                poll_end_timestamp: 1,
            }
        ))
    );
}

#[test]
fn create_rule_checks_in_order() {
    let taken = poll(2, 1, 2);
    assert_eq!(create_poll(&taken, id(), 1, 5, 5, 9), Err(Error::PollIdAlreadyExists));
    let free = PollInfo::default();
    assert_eq!(create_poll(&free, id(), 1, 5, 5, 9), Err(Error::InvalidNumberOfOption));
    assert_eq!(create_poll(&free, id(), 2, 5, 5, 9), Err(Error::InvalidStartTimestamp));
    assert_eq!(create_poll(&free, id(), 2, 9, 9, 9), Err(Error::InvalidEndTimestamp));
    assert!(create_poll(&free, id(), 2, 9, 10, 9).is_ok());
}

#[test]
fn vote_rule_adds_the_weight_and_locks_the_option() {
    let p = poll(3, 10, 20);
    assert_eq!(
        vote(&p, &record(0, 0, false), id(), 2, 5, voter(), 10),
        Ok((record(2, 5, false), voted(2, 5)))
    );
    assert_eq!(
        vote(&p, &record(2, 5, false), id(), 2, 3, voter(), 20),
        Ok((record(2, 8, false), voted(2, 3)))
    );
    assert_eq!(
        vote(&p, &record(2, 5, true), id(), 2, 3, voter(), 20),
        Ok((record(2, 8, true), voted(2, 3)))
    );
    assert_eq!(
        vote(&p, &record(0, 4, false), id(), 3, 1, voter(), 15),
        Ok((record(3, 5, false), voted(3, 1)))
    );
}

#[test]
fn vote_rule_checks_in_order() {
    let p = poll(3, 10, 20);
    let locked = record(2, 5, false);
    assert_eq!(vote(&p, &locked, id(), 9, 0, voter(), 9), Err(Error::InvalidNumberOfVotes));
    assert_eq!(vote(&p, &locked, id(), 9, 1, voter(), 9), Err(Error::PollIsNotStarted));
    assert_eq!(vote(&p, &locked, id(), 9, 1, voter(), 21), Err(Error::PollIsFinished));
    assert_eq!(vote(&p, &locked, id(), 9, 1, voter(), 15), Err(Error::InvalidNumberOfOption));
    assert_eq!(vote(&p, &locked, id(), 3, 1, voter(), 15), Err(Error::VoteDenied));
    assert_eq!(
        vote(&p, &locked, id(), 2, 1, voter(), 15),
        Ok((record(2, 6, false), voted(2, 1)))
    );
}

#[test]
fn check_vote_names_the_same_fault() {
    let p = poll(3, 10, 20);
    let locked = record(2, 5, false);
    assert_eq!(check_vote(&p, &locked, 9, 0, 9), Some(Error::InvalidNumberOfVotes));
    assert_eq!(check_vote(&p, &locked, 9, 1, 9), Some(Error::PollIsNotStarted));
    assert_eq!(check_vote(&p, &locked, 9, 1, 21), Some(Error::PollIsFinished));
    assert_eq!(check_vote(&p, &locked, 9, 1, 15), Some(Error::InvalidNumberOfOption));
    assert_eq!(check_vote(&p, &locked, 3, 1, 15), Some(Error::VoteDenied));
    assert_eq!(check_vote(&p, &locked, 2, 1, 15), None);
    assert_eq!(check_vote(&p, &record(2, u128::MAX, false), 2, 1, 15), None);
}

#[test]
fn vote_rule_on_the_empty_poll() {
    let none = PollInfo::default();
    let fresh = VotingInfo::default();
    assert_eq!(vote(&none, &fresh, id(), 1, 5, voter(), 1), Err(Error::PollIsFinished));
    assert_eq!(vote(&none, &fresh, id(), 1, 5, voter(), 0), Err(Error::InvalidNumberOfOption));
    assert_eq!(
        vote(&none, &fresh, id(), 0, 5, voter(), 0),
        Ok((record(0, 5, false), voted(0, 5)))
    );
}

#[test]
fn withdraw_rule_marks_the_release() {
    let p = poll(3, 10, 20);
    assert_eq!(
        withdraw(&p, &record(2, 8, false), voter(), 20),
        Ok((record(2, 8, true), FundsWithdrawn { voter: voter(), amount: 8 }))
    );
    assert_eq!(
        withdraw(&p, &record(0, 1, false), voter(), u64::MAX),
        Ok((record(0, 1, true), FundsWithdrawn { voter: voter(), amount: 1 }))
    );
}

#[test]
fn withdraw_rule_checks_in_order() {
    let p = poll(3, 10, 20);
    let none = PollInfo::default();
    assert_eq!(withdraw(&none, &record(0, 0, true), voter(), 0), Err(Error::PollDoesNotExist));
    assert_eq!(withdraw(&p, &record(0, 0, true), voter(), 19), Err(Error::PollIsNotFinished));
    assert_eq!(withdraw(&p, &record(0, 0, true), voter(), 20), Err(Error::InvalidVotes));
    assert_eq!(
        withdraw(&p, &record(1, 4, true), voter(), 20),
        Err(Error::FundsAlreadyWithdrawn)
    );
    assert!(withdraw(&p, &record(1, 4, false), voter(), 20).is_ok());
}

#[test]
fn poll_info_rule() {
    assert_eq!(poll_info(&PollInfo::default()), Err(Error::PollDoesNotExist));
    assert_eq!(poll_info(&poll(0, 10, 20)), Err(Error::PollDoesNotExist));
    assert_eq!(poll_info(&poll(2, 10, 20)), Ok(poll(2, 10, 20)));
}
