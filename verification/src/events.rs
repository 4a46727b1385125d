//! The notifications that a successful request hands back for publication.

use vstd::prelude::*;
use crate::types::{AccountId, Balance, Timestamp};

verus! {

/// A vote was counted.
#[derive(Debug, PartialEq, Eq)]
pub struct Voted {
    pub poll_id: String,
    pub voter: AccountId,
    pub voting_option: u32,
    /// The weight this vote added, not the voter's total.
    pub number_of_votes: Balance,
}

/// A poll was created.
#[derive(Debug, PartialEq, Eq)]
pub struct PollCreated {
    pub poll_id: String,
    pub number_of_options: u32,
    pub poll_start_timestamp: Timestamp,
    pub poll_end_timestamp: Timestamp,
}

/// A voter's weight was released.
#[derive(Clone, Copy, Debug, PartialEq, Eq)]
pub struct FundsWithdrawn {
    pub voter: AccountId,
    pub amount: Balance,
}

/// What a `Voted` notification says.
pub struct VotedView {
    pub poll_id: Seq<char>,
    pub voter: AccountId,
    pub voting_option: u32,
    pub number_of_votes: Balance,
}

/// What a `PollCreated` notification says.
pub struct PollCreatedView {
    pub poll_id: Seq<char>,
    pub number_of_options: u32,
    pub poll_start_timestamp: Timestamp,
    pub poll_end_timestamp: Timestamp,
}

impl View for Voted {
    type V = VotedView;

    open spec fn view(&self) -> VotedView {
        VotedView {
            poll_id: self.poll_id@,
            voter: self.voter,
            voting_option: self.voting_option,
            number_of_votes: self.number_of_votes,
        }
    }
}

impl View for PollCreated {
    type V = PollCreatedView;

    open spec fn view(&self) -> PollCreatedView {
        PollCreatedView {
            poll_id: self.poll_id@,
            number_of_options: self.number_of_options,
            poll_start_timestamp: self.poll_start_timestamp,
            poll_end_timestamp: self.poll_end_timestamp,
        }
    }
}

} // verus!
