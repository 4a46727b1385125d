//! The records the polls are made of, and the reasons a request is turned down.

use vstd::prelude::*;

verus! {

/// Logical time, as the host's clock counts it.
pub type Timestamp = u64;

/// Voting weight, in the host's native balance unit.
pub type Balance = u128;

/// The stable identifier of a voter.
#[derive(Clone, Copy, Debug, Eq)]
pub struct AccountId {
    pub bytes: [u8; 32],
}

impl PartialEq for AccountId {
    fn eq(&self, other: &Self) -> (r: bool) {
        let mut i: usize = 0;
        while i < 32
            invariant
                i <= 32,
                forall|j: int| 0 <= j < i ==> self.bytes[j] == other.bytes[j],
            decreases 32 - i,
        {
            if self.bytes[i] != other.bytes[i] {
                return false;
            }
            i += 1;
        }
        assert(self.bytes =~= other.bytes);
        true
    }
}

impl vstd::std_specs::cmp::PartialEqSpecImpl for AccountId {
    open spec fn obeys_eq_spec() -> bool {
        true
    }

    open spec fn eq_spec(&self, other: &Self) -> bool {
        *self == *other
    }
}

/// What one voter has recorded on one poll.
#[derive(Clone, Copy, Debug, PartialEq, Eq, Structural)]
pub struct VotingInfo {
    /// The option the voter is locked to; `0` while no choice has been made.
    pub voting_option: u32,
    /// The weight accumulated so far.
    pub number_of_votes: Balance,
    /// Whether the weight has been released.
    pub ceres_withdrawn: bool,
}

/// The configuration of a poll.
#[derive(Clone, Copy, Debug, PartialEq, Eq, Structural)]
pub struct PollInfo {
    /// How many options the poll offers; `0` stands for "no such poll".
    pub number_of_options: u32,
    /// When voting opens.
    pub poll_start_timestamp: Timestamp,
    /// When voting closes.
    pub poll_end_timestamp: Timestamp,
}

impl VotingInfo {
    /// The record of a voter who has not touched the poll.
    pub open spec fn empty() -> VotingInfo {
        VotingInfo { voting_option: 0, number_of_votes: 0, ceres_withdrawn: false }
    }
}

impl Default for VotingInfo {
    fn default() -> (r: VotingInfo)
        ensures
            r == VotingInfo::empty(),
    {
        VotingInfo { voting_option: 0, number_of_votes: 0, ceres_withdrawn: false }
    }
}

impl PollInfo {
    /// The record that stands for a poll that was never created.
    pub open spec fn empty() -> PollInfo {
        PollInfo { number_of_options: 0, poll_start_timestamp: 0, poll_end_timestamp: 0 }
    }

    /// Whether the record stands for a poll that was created.
    pub open spec fn is_created(self) -> bool {
        self.number_of_options != 0
    }

    /// What every created poll satisfies: at least two options, and an end
    /// after its start.
    pub open spec fn well_scheduled(self) -> bool {
        self.number_of_options >= 2 && self.poll_end_timestamp > self.poll_start_timestamp
    }
}

impl Default for PollInfo {
    fn default() -> (r: PollInfo)
        ensures
            r == PollInfo::empty(),
    {
        PollInfo { number_of_options: 0, poll_start_timestamp: 0, poll_end_timestamp: 0 }
    }
}

/// Why a request was turned down.
#[derive(Clone, Copy, Debug, PartialEq, Eq, Structural)]
pub enum Error {
    /// A release was asked for by a voter who has no weight on the poll.
    InvalidVotes,
    /// A vote came after the poll's end.
    PollIsFinished,
    /// A vote came before the poll's start.
    PollIsNotStarted,
    /// Kept for hosts that hold the funds; no request here reports it.
    NotEnoughFunds,
    /// A poll was to have fewer than two options, or a vote named an option
    /// beyond the poll's last.
    InvalidNumberOfOption,
    /// A vote named another option than the one the voter is locked to.
    VoteDenied,
    /// A poll was to start in the past.
    InvalidStartTimestamp,
    /// A poll was to end no later than it starts.
    InvalidEndTimestamp,
    /// A release was asked for before the poll's end.
    PollIsNotFinished,
    /// A vote carried no weight.
    InvalidNumberOfVotes,
    /// A release was asked for a second time.
    FundsAlreadyWithdrawn,
    /// A poll was to be created under an identifier that is taken.
    PollIdAlreadyExists,
    /// A release or a reading named a poll that was never created.
    PollDoesNotExist,
}

} // verus!
