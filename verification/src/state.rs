//! The polls and votes as mathematical maps, and what each request makes of
//! them. The contracts of the service and the laws are stated over this model.

use vstd::prelude::*;
use crate::rules::{create_outcome, vote_fits, vote_outcome, withdraw_outcome};
use crate::types::{AccountId, Balance, PollInfo, Timestamp, VotingInfo};

verus! {

/// All that is stored: the polls by identifier, and the voters' records by
/// identifier and voter.
pub struct GovernanceState {
    pub polls: Map<Seq<char>, PollInfo>,
    pub votes: Map<(Seq<char>, AccountId), VotingInfo>,
}

impl GovernanceState {
    /// The state in which nothing is stored.
    pub open spec fn empty() -> GovernanceState {
        GovernanceState { polls: Map::empty(), votes: Map::empty() }
    }

    /// The poll stored under `poll_id`; the empty record if there is none.
    pub open spec fn poll(self, poll_id: Seq<char>) -> PollInfo {
        if self.polls.contains_key(poll_id) {
            self.polls[poll_id]
        } else {
            PollInfo::empty()
        }
    }

    /// What `voter` has recorded on `poll_id`; the empty record if nothing.
    pub open spec fn record(self, poll_id: Seq<char>, voter: AccountId) -> VotingInfo {
        if self.votes.contains_key((poll_id, voter)) {
            self.votes[(poll_id, voter)]
        } else {
            VotingInfo::empty()
        }
    }

    /// What holds of every state that requests can reach: each stored poll is
    /// well scheduled, and a record whose weight was released has weight and
    /// belongs to a stored poll.
    pub open spec fn inv(self) -> bool {
        &&& forall|poll_id: Seq<char>| #[trigger]
            self.polls.contains_key(poll_id) ==> self.polls[poll_id].well_scheduled()
        &&& forall|poll_id: Seq<char>, voter: AccountId| #[trigger]
            self.votes.contains_key((poll_id, voter)) && self.votes[(
                poll_id,
                voter,
            )].ceres_withdrawn ==> self.votes[(poll_id, voter)].number_of_votes > 0
                && self.polls.contains_key(poll_id)
    }

    /// Whether `self` keeps what `before` has settled: every poll of `before`
    /// is stored unchanged, and for every voter on every poll a choice once
    /// made is the same, the weight is no smaller, and a release stays marked.
    pub open spec fn keeps(self, before: GovernanceState) -> bool {
        &&& forall|poll_id: Seq<char>| #[trigger]
            before.polls.contains_key(poll_id) ==> self.polls.contains_key(poll_id)
                && self.polls[poll_id] == before.polls[poll_id]
        &&& forall|poll_id: Seq<char>, voter: AccountId|
            {
                let was = before.record(poll_id, voter);
                let is = #[trigger] self.record(poll_id, voter);
                &&& was.voting_option != 0 ==> is.voting_option == was.voting_option
                &&& is.number_of_votes >= was.number_of_votes
                &&& was.ceres_withdrawn ==> is.ceres_withdrawn
            }
    }

    /// The state after a request to create a poll.
    pub open spec fn create_poll(
        self,
        poll_id: Seq<char>,
        number_of_options: u32,
        poll_start_timestamp: Timestamp,
        poll_end_timestamp: Timestamp,
        current_timestamp: Timestamp,
    ) -> GovernanceState {
        match create_outcome(
            self.poll(poll_id),
            number_of_options,
            poll_start_timestamp,
            poll_end_timestamp,
            current_timestamp,
        ) {
            Ok(poll) => GovernanceState { polls: self.polls.insert(poll_id, poll), votes: self.votes },
            Err(_) => self,
        }
    }

    /// The state after a request of `caller` to vote.
    pub open spec fn vote(
        self,
        poll_id: Seq<char>,
        voting_option: u32,
        number_of_votes: Balance,
        caller: AccountId,
        current_timestamp: Timestamp,
    ) -> GovernanceState {
        match vote_outcome(
            self.poll(poll_id),
            self.record(poll_id, caller),
            voting_option,
            number_of_votes,
            current_timestamp,
        ) {
            Ok(record) => GovernanceState {
                polls: self.polls,
                votes: self.votes.insert((poll_id, caller), record),
            },
            Err(_) => self,
        }
    }

    /// The state after a request of `caller` to have the weight released.
    pub open spec fn withdrawn(
        self,
        poll_id: Seq<char>,
        caller: AccountId,
        current_timestamp: Timestamp,
    ) -> GovernanceState {
        match withdraw_outcome(
            self.poll(poll_id),
            self.record(poll_id, caller),
            current_timestamp,
        ) {
            Ok(record) => GovernanceState {
                polls: self.polls,
                votes: self.votes.insert((poll_id, caller), record),
            },
            Err(_) => self,
        }
    }

    /// Creating a poll keeps the invariant.
    pub proof fn lemma_create_poll_keeps_inv(
        self,
        poll_id: Seq<char>,
        number_of_options: u32,
        poll_start_timestamp: Timestamp,
        poll_end_timestamp: Timestamp,
        current_timestamp: Timestamp,
    )
        requires
            self.inv(),
        ensures
            self.create_poll(
                poll_id,
                number_of_options,
                poll_start_timestamp,
                poll_end_timestamp,
                current_timestamp,
            ).inv(),
    {
        let after = self.create_poll(
            poll_id,
            number_of_options,
            poll_start_timestamp,
            poll_end_timestamp,
            current_timestamp,
        );
        assert forall|id: Seq<char>| #[trigger] after.polls.contains_key(id) implies after.polls[id].well_scheduled() by {
            if id != poll_id {
                assert(self.polls.contains_key(id));
            }
        }
        assert forall|id: Seq<char>, voter: AccountId| #[trigger]
            after.votes.contains_key((id, voter)) && after.votes[(id, voter)].ceres_withdrawn implies after.votes[(
            id,
            voter,
        )].number_of_votes > 0 && after.polls.contains_key(id) by {
            assert(self.votes.contains_key((id, voter)));
        }
    }

    /// Voting keeps the invariant, as long as the voter's weight stays within
    /// `Balance`.
    pub proof fn lemma_vote_keeps_inv(
        self,
        poll_id: Seq<char>,
        voting_option: u32,
        number_of_votes: Balance,
        caller: AccountId,
        current_timestamp: Timestamp,
    )
        requires
            self.inv(),
            vote_fits(
                self.poll(poll_id),
                self.record(poll_id, caller),
                voting_option,
                number_of_votes,
                current_timestamp,
            ),
        ensures
            self.vote(poll_id, voting_option, number_of_votes, caller, current_timestamp).inv(),
    {
        let after = self.vote(poll_id, voting_option, number_of_votes, caller, current_timestamp);
        assert forall|id: Seq<char>, voter: AccountId| #[trigger]
            after.votes.contains_key((id, voter)) && after.votes[(id, voter)].ceres_withdrawn implies after.votes[(
            id,
            voter,
        )].number_of_votes > 0 && after.polls.contains_key(id) by {
            if (id, voter) != (poll_id, caller) {
                assert(self.votes.contains_key((id, voter)));
            } else if after != self {
                assert(self.record(poll_id, caller).ceres_withdrawn);
                assert(self.votes.contains_key((poll_id, caller)));
            }
        }
    }

    /// Releasing a voter's weight keeps the invariant.
    pub proof fn lemma_withdrawn_keeps_inv(
        self,
        poll_id: Seq<char>,
        caller: AccountId,
        current_timestamp: Timestamp,
    )
        requires
            self.inv(),
        ensures
            self.withdrawn(poll_id, caller, current_timestamp).inv(),
    {
        let after = self.withdrawn(poll_id, caller, current_timestamp);
        assert forall|id: Seq<char>, voter: AccountId| #[trigger]
            after.votes.contains_key((id, voter)) && after.votes[(id, voter)].ceres_withdrawn implies after.votes[(
            id,
            voter,
        )].number_of_votes > 0 && after.polls.contains_key(id) by {
            if (id, voter) != (poll_id, caller) {
                assert(self.votes.contains_key((id, voter)));
            }
        }
    }
}

} // verus!
