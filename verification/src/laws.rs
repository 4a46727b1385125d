//! Laws of the governance service, stated over `GovernanceState` and the
//! rules, which are what the contracts of the service speak of.

use vstd::prelude::*;
use crate::rules::{create_outcome, poll_info_outcome, vote_fits, vote_outcome, withdraw_outcome};
use crate::state::GovernanceState;
use crate::types::{AccountId, Balance, Error, PollInfo, Timestamp, VotingInfo};

verus! {

/// A poll with at least two options, a start that is not in the past and an
/// end after its start is created under any identifier that is not taken,
/// and is then read back exactly as it was asked for.
pub proof fn lemma_created_poll_is_read_back(
    s: GovernanceState,
    poll_id: Seq<char>,
    number_of_options: u32,
    poll_start_timestamp: Timestamp,
    poll_end_timestamp: Timestamp,
    current_timestamp: Timestamp,
)
    requires
        number_of_options >= 2,
        poll_start_timestamp >= current_timestamp,
        poll_end_timestamp > poll_start_timestamp,
        !s.polls.contains_key(poll_id),
    ensures
        create_outcome(
            s.poll(poll_id),
            number_of_options,
            poll_start_timestamp,
            poll_end_timestamp,
            current_timestamp,
        ) == Ok::<PollInfo, Error>(
            PollInfo { number_of_options, poll_start_timestamp, poll_end_timestamp },
        ),
        poll_info_outcome(
            s.create_poll(
                poll_id,
                number_of_options,
                poll_start_timestamp,
                poll_end_timestamp,
                current_timestamp,
            ).poll(poll_id),
        ) == Ok::<PollInfo, Error>(
            PollInfo { number_of_options, poll_start_timestamp, poll_end_timestamp },
        ),
{
}

/// Once a poll has been created, creating one under the same identifier is
/// turned down with `PollIdAlreadyExists`, whatever is asked for, and leaves
/// everything stored as the first creation left it.
pub proof fn lemma_second_creation_is_refused(
    s: GovernanceState,
    poll_id: Seq<char>,
    first_options: u32,
    first_start: Timestamp,
    first_end: Timestamp,
    first_time: Timestamp,
    second_options: u32,
    second_start: Timestamp,
    second_end: Timestamp,
    second_time: Timestamp,
)
    requires
        create_outcome(s.poll(poll_id), first_options, first_start, first_end, first_time) is Ok,
    ensures
        ({
            let created = s.create_poll(poll_id, first_options, first_start, first_end, first_time);
            &&& create_outcome(
                created.poll(poll_id),
                second_options,
                second_start,
                second_end,
                second_time,
            ) == Err::<PollInfo, Error>(Error::PollIdAlreadyExists)
            &&& created.create_poll(poll_id, second_options, second_start, second_end, second_time)
                == created
            &&& created.poll(poll_id) == (PollInfo {
                number_of_options: first_options,
                poll_start_timestamp: first_start,
                poll_end_timestamp: first_end,
            })
        }),
{
}

/// Two votes of one voter for the same option add up: if the first is
/// counted, a second one with weight, cast while the poll is open, is counted
/// too, and the voter's record then holds the option and the sum of both
/// weights on top of what it held before.
pub proof fn lemma_votes_accumulate(
    s: GovernanceState,
    poll_id: Seq<char>,
    voting_option: u32,
    caller: AccountId,
    first_votes: Balance,
    first_time: Timestamp,
    second_votes: Balance,
    second_time: Timestamp,
)
    requires
        vote_outcome(
            s.poll(poll_id),
            s.record(poll_id, caller),
            voting_option,
            first_votes,
            first_time,
        ) is Ok,
        second_votes > 0,
        s.poll(poll_id).poll_start_timestamp <= second_time <= s.poll(poll_id).poll_end_timestamp,
        s.record(poll_id, caller).number_of_votes + first_votes + second_votes <= Balance::MAX,
    ensures
        ({
            let once = s.vote(poll_id, voting_option, first_votes, caller, first_time);
            let twice = once.vote(poll_id, voting_option, second_votes, caller, second_time);
            &&& vote_outcome(
                once.poll(poll_id),
                once.record(poll_id, caller),
                voting_option,
                second_votes,
                second_time,
            ) is Ok
            &&& twice.record(poll_id, caller).voting_option == voting_option
            &&& twice.record(poll_id, caller).number_of_votes == s.record(
                poll_id,
                caller,
            ).number_of_votes + first_votes + second_votes
        }),
{
}

/// A voter is locked to the first option voted for: once a vote for an
/// option other than zero is counted, a vote of the same voter for another
/// option of the poll, with weight and cast while the poll is open, is turned
/// down with `VoteDenied` and changes nothing.
pub proof fn lemma_choice_is_locked(
    s: GovernanceState,
    poll_id: Seq<char>,
    caller: AccountId,
    first_option: u32,
    first_votes: Balance,
    first_time: Timestamp,
    second_option: u32,
    second_votes: Balance,
    second_time: Timestamp,
)
    requires
        vote_outcome(
            s.poll(poll_id),
            s.record(poll_id, caller),
            first_option,
            first_votes,
            first_time,
        ) is Ok,
        first_option != 0,
        second_option != first_option,
        second_option <= s.poll(poll_id).number_of_options,
        second_votes > 0,
        s.poll(poll_id).poll_start_timestamp <= second_time <= s.poll(poll_id).poll_end_timestamp,
    ensures
        ({
            let once = s.vote(poll_id, first_option, first_votes, caller, first_time);
            &&& vote_outcome(
                once.poll(poll_id),
                once.record(poll_id, caller),
                second_option,
                second_votes,
                second_time,
            ) == Err::<VotingInfo, Error>(Error::VoteDenied)
            &&& once.vote(poll_id, second_option, second_votes, caller, second_time) == once
        }),
{
}

/// A vote with weight that is cast after the poll's end is turned down with
/// `PollIsFinished` and changes nothing. A poll that was never created ends
/// at time zero.
pub proof fn lemma_vote_after_end_is_refused(
    s: GovernanceState,
    poll_id: Seq<char>,
    voting_option: u32,
    number_of_votes: Balance,
    caller: AccountId,
    current_timestamp: Timestamp,
)
    requires
        s.inv(),
        number_of_votes > 0,
        current_timestamp > s.poll(poll_id).poll_end_timestamp,
    ensures
        vote_outcome(
            s.poll(poll_id),
            s.record(poll_id, caller),
            voting_option,
            number_of_votes,
            current_timestamp,
        ) == Err::<VotingInfo, Error>(Error::PollIsFinished),
        s.vote(poll_id, voting_option, number_of_votes, caller, current_timestamp) == s,
{
    if s.polls.contains_key(poll_id) {
        assert(s.polls[poll_id].well_scheduled());
    }
}

/// A voter with weight on a poll can have it released exactly once: before
/// the poll's end the request is turned down with `PollIsNotFinished` and
/// changes nothing; from the end on it succeeds; and any request after that
/// is turned down with `FundsAlreadyWithdrawn` and changes nothing.
pub proof fn lemma_weight_is_released_once(
    s: GovernanceState,
    poll_id: Seq<char>,
    caller: AccountId,
    before_end: Timestamp,
    after_end: Timestamp,
    later: Timestamp,
)
    requires
        s.poll(poll_id).is_created(),
        s.record(poll_id, caller).number_of_votes > 0,
        !s.record(poll_id, caller).ceres_withdrawn,
        before_end < s.poll(poll_id).poll_end_timestamp,
        after_end >= s.poll(poll_id).poll_end_timestamp,
        later >= s.poll(poll_id).poll_end_timestamp,
    ensures
        withdraw_outcome(s.poll(poll_id), s.record(poll_id, caller), before_end) == Err::<
            VotingInfo,
            Error,
        >(Error::PollIsNotFinished),
        s.withdrawn(poll_id, caller, before_end) == s,
        withdraw_outcome(s.poll(poll_id), s.record(poll_id, caller), after_end) is Ok,
        ({
            let released = s.withdrawn(poll_id, caller, after_end);
            &&& released.record(poll_id, caller) == (VotingInfo {
                voting_option: s.record(poll_id, caller).voting_option,
                number_of_votes: s.record(poll_id, caller).number_of_votes,
                ceres_withdrawn: true,
            })
            &&& withdraw_outcome(released.poll(poll_id), released.record(poll_id, caller), later)
                == Err::<VotingInfo, Error>(Error::FundsAlreadyWithdrawn)
            &&& released.withdrawn(poll_id, caller, later) == released
        }),
{
}

/// A voter without weight on a poll that has reached its end is turned down
/// with `InvalidVotes` when asking for a release, and nothing changes.
pub proof fn lemma_release_without_weight_is_refused(
    s: GovernanceState,
    poll_id: Seq<char>,
    caller: AccountId,
    current_timestamp: Timestamp,
)
    requires
        s.poll(poll_id).is_created(),
        current_timestamp >= s.poll(poll_id).poll_end_timestamp,
        s.record(poll_id, caller).number_of_votes == 0,
    ensures
        withdraw_outcome(s.poll(poll_id), s.record(poll_id, caller), current_timestamp) == Err::<
            VotingInfo,
            Error,
        >(Error::InvalidVotes),
        s.withdrawn(poll_id, caller, current_timestamp) == s,
{
}

/// A voter without weight on a poll is never granted a release, at whatever
/// time it is asked for, and the request changes nothing.
pub proof fn lemma_release_without_weight_never_succeeds(
    s: GovernanceState,
    poll_id: Seq<char>,
    caller: AccountId,
    current_timestamp: Timestamp,
)
    requires
        s.record(poll_id, caller).number_of_votes == 0,
    ensures
        withdraw_outcome(s.poll(poll_id), s.record(poll_id, caller), current_timestamp) is Err,
        s.withdrawn(poll_id, caller, current_timestamp) == s,
{
}

/// Creating a poll settles nothing anew for the polls and records there
/// are: a stored poll is never replaced.
pub proof fn lemma_create_poll_keeps(
    s: GovernanceState,
    poll_id: Seq<char>,
    number_of_options: u32,
    poll_start_timestamp: Timestamp,
    poll_end_timestamp: Timestamp,
    current_timestamp: Timestamp,
)
    requires
        s.inv(),
    ensures
        s.create_poll(
            poll_id,
            number_of_options,
            poll_start_timestamp,
            poll_end_timestamp,
            current_timestamp,
        ).keeps(s),
{
    if s.polls.contains_key(poll_id) {
        assert(s.polls[poll_id].well_scheduled());
    }
}

/// A vote changes no poll, never changes a choice once made, never lowers a
/// weight and never undoes a release; and it changes a record only while the
/// poll is open.
pub proof fn lemma_vote_keeps(
    s: GovernanceState,
    poll_id: Seq<char>,
    voting_option: u32,
    number_of_votes: Balance,
    caller: AccountId,
    current_timestamp: Timestamp,
)
    requires
        vote_fits(
            s.poll(poll_id),
            s.record(poll_id, caller),
            voting_option,
            number_of_votes,
            current_timestamp,
        ),
    ensures
        s.vote(poll_id, voting_option, number_of_votes, caller, current_timestamp).keeps(s),
        s.vote(poll_id, voting_option, number_of_votes, caller, current_timestamp) != s
            ==> s.poll(poll_id).poll_start_timestamp <= current_timestamp <= s.poll(
            poll_id,
        ).poll_end_timestamp,
{
    let after = s.vote(poll_id, voting_option, number_of_votes, caller, current_timestamp);
    assert forall|id: Seq<char>, voter: AccountId|
        {
            let was = s.record(id, voter);
            let is = #[trigger] after.record(id, voter);
            &&& was.voting_option != 0 ==> is.voting_option == was.voting_option
            &&& is.number_of_votes >= was.number_of_votes
            &&& was.ceres_withdrawn ==> is.ceres_withdrawn
        } by {
        if (id, voter) != (poll_id, caller) {
            assert(after.votes.contains_key((id, voter)) == s.votes.contains_key((id, voter)));
        }
    }
}

/// A release changes no poll, no choice and no weight, and never undoes a
/// release; and it changes a record only once the poll has reached its end.
pub proof fn lemma_withdrawn_keeps(
    s: GovernanceState,
    poll_id: Seq<char>,
    caller: AccountId,
    current_timestamp: Timestamp,
)
    ensures
        s.withdrawn(poll_id, caller, current_timestamp).keeps(s),
        s.withdrawn(poll_id, caller, current_timestamp) != s ==> current_timestamp >= s.poll(
            poll_id,
        ).poll_end_timestamp,
{
    let after = s.withdrawn(poll_id, caller, current_timestamp);
    assert forall|id: Seq<char>, voter: AccountId|
        {
            let was = s.record(id, voter);
            let is = #[trigger] after.record(id, voter);
            &&& was.voting_option != 0 ==> is.voting_option == was.voting_option
            &&& is.number_of_votes >= was.number_of_votes
            &&& was.ceres_withdrawn ==> is.ceres_withdrawn
        } by {
        if (id, voter) != (poll_id, caller) {
            assert(after.votes.contains_key((id, voter)) == s.votes.contains_key((id, voter)));
        }
    }
}

/// What is kept over one stretch of requests and over the next is kept over
/// both.
pub proof fn lemma_keeps_is_transitive(
    first: GovernanceState,
    second: GovernanceState,
    third: GovernanceState,
)
    requires
        second.keeps(first),
        third.keeps(second),
    ensures
        third.keeps(first),
{
    assert forall|id: Seq<char>, voter: AccountId|
        {
            let was = first.record(id, voter);
            let is = #[trigger] third.record(id, voter);
            &&& was.voting_option != 0 ==> is.voting_option == was.voting_option
            &&& is.number_of_votes >= was.number_of_votes
            &&& was.ceres_withdrawn ==> is.ceres_withdrawn
        } by {
        let mid = second.record(id, voter);
    }
}

/// No request is ever turned down with `NotEnoughFunds`: weight is counted
/// here, and funds are held elsewhere.
pub proof fn lemma_not_enough_funds_is_never_reported(
    poll: PollInfo,
    record: VotingInfo,
    number_of_options: u32,
    poll_start_timestamp: Timestamp,
    poll_end_timestamp: Timestamp,
    voting_option: u32,
    number_of_votes: Balance,
    current_timestamp: Timestamp,
)
    ensures
        create_outcome(
            poll,
            number_of_options,
            poll_start_timestamp,
            poll_end_timestamp,
            current_timestamp,
        ) != Err::<PollInfo, Error>(Error::NotEnoughFunds),
        vote_outcome(poll, record, voting_option, number_of_votes, current_timestamp) != Err::<
            VotingInfo,
            Error,
        >(Error::NotEnoughFunds),
        withdraw_outcome(poll, record, current_timestamp) != Err::<VotingInfo, Error>(
            Error::NotEnoughFunds,
        ),
        poll_info_outcome(poll) != Err::<PollInfo, Error>(Error::NotEnoughFunds),
{
}

} // verus!
