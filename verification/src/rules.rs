//! The rules of polling, one record at a time.
//!
//! Each rule takes the records a request touches, as they stand before the
//! request, and says either which record is to be written back and which
//! notification published, or why the request is turned down. The checks of
//! a rule are ordered: the first one that fails names the error.
//!
//! The rules store nothing and publish nothing, so they serve whatever keeps
//! the records: the service of this library, or a host with a storage of its
//! own.

use vstd::prelude::*;
use crate::events::{FundsWithdrawn, PollCreated, PollCreatedView, Voted, VotedView};
use crate::types::{AccountId, Balance, Error, PollInfo, Timestamp, VotingInfo};

verus! {

/// Creating a poll where `existing` is what is stored under its identifier.
pub open spec fn create_outcome(
    existing: PollInfo,
    number_of_options: u32,
    poll_start_timestamp: Timestamp,
    poll_end_timestamp: Timestamp,
    current_timestamp: Timestamp,
) -> Result<PollInfo, Error> {
    if existing.number_of_options != 0 {
        Err(Error::PollIdAlreadyExists)
    } else if number_of_options < 2 {
        Err(Error::InvalidNumberOfOption)
    } else if poll_start_timestamp < current_timestamp {
        Err(Error::InvalidStartTimestamp)
    } else if poll_end_timestamp <= poll_start_timestamp {
        Err(Error::InvalidEndTimestamp)
    } else {
        Ok(PollInfo { number_of_options, poll_start_timestamp, poll_end_timestamp })
    }
}

/// Why a vote is turned down, if it is.
pub open spec fn vote_refusal(
    poll: PollInfo,
    record: VotingInfo,
    voting_option: u32,
    number_of_votes: Balance,
    current_timestamp: Timestamp,
) -> Option<Error> {
    if number_of_votes == 0 {
        Some(Error::InvalidNumberOfVotes)
    } else if current_timestamp < poll.poll_start_timestamp {
        Some(Error::PollIsNotStarted)
    } else if current_timestamp > poll.poll_end_timestamp {
        Some(Error::PollIsFinished)
    } else if voting_option > poll.number_of_options {
        Some(Error::InvalidNumberOfOption)
    } else if record.voting_option != 0 && record.voting_option != voting_option {
        Some(Error::VoteDenied)
    } else {
        None
    }
}

/// Whether the weight of a vote can be added to the record. It need only be
/// asked of a vote that is not turned down.
pub open spec fn vote_fits(
    poll: PollInfo,
    record: VotingInfo,
    voting_option: u32,
    number_of_votes: Balance,
    current_timestamp: Timestamp,
) -> bool {
    vote_refusal(poll, record, voting_option, number_of_votes, current_timestamp) is None
        ==> record.number_of_votes + number_of_votes <= Balance::MAX
}

/// Voting where `poll` is the poll voted on and `record` what the voter has
/// recorded on it so far.
pub open spec fn vote_outcome(
    poll: PollInfo,
    record: VotingInfo,
    voting_option: u32,
    number_of_votes: Balance,
    current_timestamp: Timestamp,
) -> Result<VotingInfo, Error> {
    match vote_refusal(poll, record, voting_option, number_of_votes, current_timestamp) {
        Some(e) => Err(e),
        None => Ok(
            VotingInfo {
                voting_option,
                number_of_votes: (record.number_of_votes + number_of_votes) as Balance,
                ceres_withdrawn: record.ceres_withdrawn,
            },
        ),
    }
}

/// Releasing the weight that `record` holds on `poll`.
pub open spec fn withdraw_outcome(
    poll: PollInfo,
    record: VotingInfo,
    current_timestamp: Timestamp,
) -> Result<VotingInfo, Error> {
    if poll.number_of_options == 0 {
        Err(Error::PollDoesNotExist)
    } else if current_timestamp < poll.poll_end_timestamp {
        Err(Error::PollIsNotFinished)
    } else if record.number_of_votes == 0 {
        Err(Error::InvalidVotes)
    } else if record.ceres_withdrawn {
        Err(Error::FundsAlreadyWithdrawn)
    } else {
        Ok(
            VotingInfo {
                voting_option: record.voting_option,
                number_of_votes: record.number_of_votes,
                ceres_withdrawn: true,
            },
        )
    }
}

/// Reading a poll where `poll` is what is stored under its identifier.
pub open spec fn poll_info_outcome(poll: PollInfo) -> Result<PollInfo, Error> {
    if poll.number_of_options == 0 {
        Err(Error::PollDoesNotExist)
    } else {
        Ok(poll)
    }
}

/// Decides whether the poll `poll_id` may be created where `existing` is
/// what is stored under that identifier. If so, hands back the poll's record
/// and the notification of its creation.
pub fn create_poll(
    existing: &PollInfo,
    poll_id: String,
    number_of_options: u32,
    poll_start_timestamp: Timestamp,
    poll_end_timestamp: Timestamp,
    current_timestamp: Timestamp,
) -> (r: Result<(PollInfo, PollCreated), Error>)
    ensures
        match r {
            Ok((poll, event)) => create_outcome(
                *existing,
                number_of_options,
                poll_start_timestamp,
                poll_end_timestamp,
                current_timestamp,
            ) == Ok::<PollInfo, Error>(poll) && event@ == (PollCreatedView {
                poll_id: poll_id@,
                number_of_options,
                poll_start_timestamp,
                poll_end_timestamp,
            }),
            Err(e) => create_outcome(
                *existing,
                number_of_options,
                poll_start_timestamp,
                poll_end_timestamp,
                current_timestamp,
            ) == Err::<PollInfo, Error>(e),
        },
{
    if existing.number_of_options != 0 {
        return Err(Error::PollIdAlreadyExists);
    }
    if number_of_options < 2 {
        return Err(Error::InvalidNumberOfOption);
    }
    if poll_start_timestamp < current_timestamp {
        return Err(Error::InvalidStartTimestamp);
    }
    if poll_end_timestamp <= poll_start_timestamp {
        return Err(Error::InvalidEndTimestamp);
    }
    Ok(
        (
            PollInfo { number_of_options, poll_start_timestamp, poll_end_timestamp },
            PollCreated { poll_id, number_of_options, poll_start_timestamp, poll_end_timestamp },
        ),
    )
}

/// Finds the reason to turn a vote down, if there is one. The weight is not
/// added here, so any vote can be asked about.
pub fn check_vote(
    poll: &PollInfo,
    record: &VotingInfo,
    voting_option: u32,
    number_of_votes: Balance,
    current_timestamp: Timestamp,
) -> (r: Option<Error>)
    ensures
        r == vote_refusal(*poll, *record, voting_option, number_of_votes, current_timestamp),
{
    if number_of_votes == 0 {
        return Some(Error::InvalidNumberOfVotes);
    }
    if current_timestamp < poll.poll_start_timestamp {
        return Some(Error::PollIsNotStarted);
    }
    if current_timestamp > poll.poll_end_timestamp {
        return Some(Error::PollIsFinished);
    }
    if voting_option > poll.number_of_options {
        return Some(Error::InvalidNumberOfOption);
    }
    if record.voting_option != 0 && record.voting_option != voting_option {
        return Some(Error::VoteDenied);
    }
    None
}

/// Decides whether a vote of `caller` on `poll_id` counts, where `poll` is
/// what is stored for the poll and `record` what the caller has recorded on
/// it. If so, hands back the caller's new record, locked to the option voted
/// for and with the weight added, and the notification of the vote, which
/// carries the weight just added.
///
/// The sum of the weights of a vote that counts must stay within `Balance`.
pub fn vote(
    poll: &PollInfo,
    record: &VotingInfo,
    poll_id: String,
    voting_option: u32,
    number_of_votes: Balance,
    caller: AccountId,
    current_timestamp: Timestamp,
) -> (r: Result<(VotingInfo, Voted), Error>)
    requires
        vote_fits(*poll, *record, voting_option, number_of_votes, current_timestamp),
    ensures
        match r {
            Ok((updated, event)) => vote_outcome(
                *poll,
                *record,
                voting_option,
                number_of_votes,
                current_timestamp,
            ) == Ok::<VotingInfo, Error>(updated) && event@ == (VotedView {
                poll_id: poll_id@,
                voter: caller,
                voting_option,
                number_of_votes,
            }),
            Err(e) => vote_outcome(
                *poll,
                *record,
                voting_option,
                number_of_votes,
                current_timestamp,
            ) == Err::<VotingInfo, Error>(e),
        },
{
    match check_vote(poll, record, voting_option, number_of_votes, current_timestamp) {
        Some(e) => Err(e),
        None => Ok(
            (
                VotingInfo {
                    voting_option,
                    number_of_votes: record.number_of_votes + number_of_votes,
                    ceres_withdrawn: record.ceres_withdrawn,
                },
                Voted { poll_id, voter: caller, voting_option, number_of_votes },
            ),
        ),
    }
}

/// Decides whether the weight that `caller` has recorded may be released,
/// where `poll` is what is stored for the poll and `record` the caller's
/// record on it. If so, hands back the record with the release marked and the
/// notification of the release, which carries the whole weight.
pub fn withdraw(
    poll: &PollInfo,
    record: &VotingInfo,
    caller: AccountId,
    current_timestamp: Timestamp,
) -> (r: Result<(VotingInfo, FundsWithdrawn), Error>)
    ensures
        match r {
            Ok((updated, event)) => withdraw_outcome(*poll, *record, current_timestamp) == Ok::<
                VotingInfo,
                Error,
            >(updated) && event == (FundsWithdrawn {
                voter: caller,
                amount: record.number_of_votes,
            }),
            Err(e) => withdraw_outcome(*poll, *record, current_timestamp) == Err::<
                VotingInfo,
                Error,
            >(e),
        },
{
    if poll.number_of_options == 0 {
        return Err(Error::PollDoesNotExist);
    }
    if current_timestamp < poll.poll_end_timestamp {
        return Err(Error::PollIsNotFinished);
    }
    if record.number_of_votes == 0 {
        return Err(Error::InvalidVotes);
    }
    if record.ceres_withdrawn {
        return Err(Error::FundsAlreadyWithdrawn);
    }
    Ok(
        (
            VotingInfo {
                voting_option: record.voting_option,
                number_of_votes: record.number_of_votes,
                ceres_withdrawn: true,
            },
            FundsWithdrawn { voter: caller, amount: record.number_of_votes },
        ),
    )
}

/// Hands a poll's record out, unless it stands for a poll that was never
/// created.
pub fn poll_info(poll: &PollInfo) -> (r: Result<PollInfo, Error>)
    ensures
        r == poll_info_outcome(*poll),
{
    if poll.number_of_options == 0 {
        return Err(Error::PollDoesNotExist);
    }
    Ok(*poll)
}

} // verus!
