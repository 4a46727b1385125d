//! The governance service: the four requests, decided by the rules and
//! carried out on the poll registry and the vote ledger.
//!
//! The service keeps no clock and knows no caller: each request is handed the
//! time at which it is made and, where it matters, who makes it. A request
//! that succeeds hands back the notification to publish; one that is turned
//! down changes nothing.

use vstd::prelude::*;
use crate::events::{FundsWithdrawn, PollCreated, PollCreatedView, Voted, VotedView};
use crate::ledger::VoteLedger;
use crate::registry::PollRegistry;
use crate::rules;
use crate::rules::{create_outcome, poll_info_outcome, vote_fits, vote_outcome, withdraw_outcome};
use crate::state::GovernanceState;
use crate::types::{AccountId, Balance, Error, PollInfo, Timestamp, VotingInfo};

verus! {

/// The polls and the votes cast on them.
pub struct CeresGovernance {
    poll_data: PollRegistry,
    voting: VoteLedger,
}

impl View for CeresGovernance {
    type V = GovernanceState;

    /// What is stored, as maps.
    closed spec fn view(&self) -> GovernanceState {
        GovernanceState { polls: self.poll_data@, votes: self.voting@ }
    }
}

impl CeresGovernance {
    /// The service is well formed: its stores are, and what they hold
    /// satisfies `GovernanceState::inv`.
    pub closed spec fn wf(&self) -> bool {
        &&& self.poll_data.wf()
        &&& self.voting.wf()
        &&& self@.inv()
    }

    /// A well-formed service holds a state that satisfies the invariant.
    pub proof fn lemma_wf_inv(&self)
        requires
            self.wf(),
        ensures
            self@.inv(),
    {
    }

    /// A service with no poll and no vote.
    pub fn new() -> (r: CeresGovernance)
        ensures
            r.wf(),
            r@ == GovernanceState::empty(),
    {
        CeresGovernance { poll_data: PollRegistry::new(), voting: VoteLedger::new() }
    }

    fn stored_poll(&self, poll_id: &String) -> (r: PollInfo)
        requires
            self.wf(),
        ensures
            r == self@.poll(poll_id@),
    {
        match self.poll_data.get(poll_id) {
            Some(poll) => poll,
            None => PollInfo::default(),
        }
    }

    /// What `voter` has recorded on `poll_id`; the empty record if nothing.
    pub fn voting_info(&self, poll_id: &String, voter: &AccountId) -> (r: VotingInfo)
        requires
            self.wf(),
        ensures
            r == self@.record(poll_id@, *voter),
    {
        match self.voting.get(poll_id, voter) {
            Some(record) => record,
            None => VotingInfo::default(),
        }
    }

    /// Creates the poll `poll_id` at time `current_timestamp`.
    ///
    /// Turned down, in this order, with `PollIdAlreadyExists` if a poll is
    /// stored under `poll_id`, `InvalidNumberOfOption` if fewer than two
    /// options are asked for, `InvalidStartTimestamp` if the poll would start
    /// before `current_timestamp`, and `InvalidEndTimestamp` if it would not
    /// end after its start. Otherwise the poll is stored and the notification
    /// of its creation handed back.
    pub fn create_poll(
        &mut self,
        poll_id: String,
        number_of_options: u32,
        poll_start_timestamp: Timestamp,
        poll_end_timestamp: Timestamp,
        current_timestamp: Timestamp,
    ) -> (r: Result<PollCreated, Error>)
        requires
            old(self).wf(),
        ensures
            final(self).wf(),
            final(self)@ == old(self)@.create_poll(
                poll_id@,
                number_of_options,
                poll_start_timestamp,
                poll_end_timestamp,
                current_timestamp,
            ),
            match r {
                Ok(event) => create_outcome(
                    old(self)@.poll(poll_id@),
                    number_of_options,
                    poll_start_timestamp,
                    poll_end_timestamp,
                    current_timestamp,
                ) is Ok && event@ == (PollCreatedView {
                    poll_id: poll_id@,
                    number_of_options,
                    poll_start_timestamp,
                    poll_end_timestamp,
                }),
                Err(e) => create_outcome(
                    old(self)@.poll(poll_id@),
                    number_of_options,
                    poll_start_timestamp,
                    poll_end_timestamp,
                    current_timestamp,
                ) == Err::<PollInfo, Error>(e),
            },
    {
        let existing = self.stored_poll(&poll_id);
        match rules::create_poll(
            &existing,
            poll_id.clone(),
            number_of_options,
            poll_start_timestamp,
            poll_end_timestamp,
            current_timestamp,
        ) {
            Ok((poll, event)) => {
                self.poll_data.put(poll_id, poll);
                proof {
                    old(self)@.lemma_create_poll_keeps_inv(
                        poll_id@,
                        number_of_options,
                        poll_start_timestamp,
                        poll_end_timestamp,
                        current_timestamp,
                    );
                }
                Ok(event)
            },
            Err(e) => Err(e),
        }
    }

    /// Counts `number_of_votes` of `caller` for `voting_option` on `poll_id`,
    /// at time `current_timestamp`.
    ///
    /// Turned down, in this order, with `InvalidNumberOfVotes` if the weight
    /// is zero, `PollIsNotStarted` before the poll's start, `PollIsFinished`
    /// after its end, `InvalidNumberOfOption` if the option is beyond the
    /// poll's last, and `VoteDenied` if the caller is locked to another
    /// option. A poll that was never created counts as one with no options
    /// that starts and ends at time zero. Otherwise the caller is locked to
    /// the option, the weight is added to the caller's record, and the
    /// notification of the vote, with the weight just added, is handed back.
    ///
    /// The caller's total weight must stay within `Balance`.
    pub fn vote(
        &mut self,
        poll_id: String,
        voting_option: u32,
        number_of_votes: Balance,
        caller: AccountId,
        current_timestamp: Timestamp,
    ) -> (r: Result<Voted, Error>)
        requires
            old(self).wf(),
            vote_fits(
                old(self)@.poll(poll_id@),
                old(self)@.record(poll_id@, caller),
                voting_option,
                number_of_votes,
                current_timestamp,
            ),
        ensures
            final(self).wf(),
            final(self)@ == old(self)@.vote(
                poll_id@,
                voting_option,
                number_of_votes,
                caller,
                current_timestamp,
            ),
            match r {
                Ok(event) => vote_outcome(
                    old(self)@.poll(poll_id@),
                    old(self)@.record(poll_id@, caller),
                    voting_option,
                    number_of_votes,
                    current_timestamp,
                ) is Ok && event@ == (VotedView {
                    poll_id: poll_id@,
                    voter: caller,
                    voting_option,
                    number_of_votes,
                }),
                Err(e) => vote_outcome(
                    old(self)@.poll(poll_id@),
                    old(self)@.record(poll_id@, caller),
                    voting_option,
                    number_of_votes,
                    current_timestamp,
                ) == Err::<VotingInfo, Error>(e),
            },
    {
        let poll = self.stored_poll(&poll_id);
        let record = self.voting_info(&poll_id, &caller);
        match rules::vote(
            &poll,
            &record,
            poll_id.clone(),
            voting_option,
            number_of_votes,
            caller,
            current_timestamp,
        ) {
            Ok((updated, event)) => {
                self.voting.put(poll_id, caller, updated);
                proof {
                    old(self)@.lemma_vote_keeps_inv(
                        poll_id@,
                        voting_option,
                        number_of_votes,
                        caller,
                        current_timestamp,
                    );
                }
                Ok(event)
            },
            Err(e) => Err(e),
        }
    }

    /// Releases the weight that `caller` has recorded on `poll_id`, at time
    /// `current_timestamp`.
    ///
    /// Turned down, in this order, with `PollDoesNotExist` if no poll is
    /// stored under `poll_id`, `PollIsNotFinished` before the poll's end,
    /// `InvalidVotes` if the caller has no weight on the poll, and
    /// `FundsAlreadyWithdrawn` if the weight was released before. Otherwise
    /// the release is marked on the caller's record and the notification,
    /// with the caller's whole weight, handed back.
    pub fn withdrawn(&mut self, poll_id: String, caller: AccountId, current_timestamp: Timestamp) -> (r:
        Result<FundsWithdrawn, Error>)
        requires
            old(self).wf(),
        ensures
            final(self).wf(),
            final(self)@ == old(self)@.withdrawn(poll_id@, caller, current_timestamp),
            match r {
                Ok(event) => withdraw_outcome(
                    old(self)@.poll(poll_id@),
                    old(self)@.record(poll_id@, caller),
                    current_timestamp,
                ) is Ok && event == (FundsWithdrawn {
                    voter: caller,
                    amount: old(self)@.record(poll_id@, caller).number_of_votes,
                }),
                Err(e) => withdraw_outcome(
                    old(self)@.poll(poll_id@),
                    old(self)@.record(poll_id@, caller),
                    current_timestamp,
                ) == Err::<VotingInfo, Error>(e),
            },
    {
        let poll = self.stored_poll(&poll_id);
        let record = self.voting_info(&poll_id, &caller);
        match rules::withdraw(&poll, &record, caller, current_timestamp) {
            Ok((updated, event)) => {
                proof {
                    old(self)@.lemma_withdrawn_keeps_inv(poll_id@, caller, current_timestamp);
                }
                self.voting.put(poll_id, caller, updated);
                Ok(event)
            },
            Err(e) => Err(e),
        }
    }

    /// The poll stored under `poll_id`; `PollDoesNotExist` if there is none.
    pub fn get_poll_info(&self, poll_id: String) -> (r: Result<PollInfo, Error>)
        requires
            self.wf(),
        ensures
            r == poll_info_outcome(self@.poll(poll_id@)),
    {
        let poll = self.stored_poll(&poll_id);
        rules::poll_info(&poll)
    }
}

} // verus!
