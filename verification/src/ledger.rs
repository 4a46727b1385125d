//! The vote ledger: a keyed store from a poll's identifier and a voter to what
//! that voter has recorded on that poll. It validates nothing; the rules are
//! applied by its user.

use vstd::prelude::*;
use crate::types::{AccountId, VotingInfo};

verus! {

struct VoteEntry {
    poll_id: String,
    voter: AccountId,
    info: VotingInfo,
}

/// Maps a poll identifier and a voter to the voter's record on the poll.
pub struct VoteLedger {
    entries: Vec<VoteEntry>,
}

impl View for VoteLedger {
    type V = Map<(Seq<char>, AccountId), VotingInfo>;

    /// The ledger as a map from identifier and voter to record.
    closed spec fn view(&self) -> Map<(Seq<char>, AccountId), VotingInfo> {
        Map::new(
            |key: (Seq<char>, AccountId)| self.holds(key),
            |key: (Seq<char>, AccountId)| self.entries[self.position(key)].info,
        )
    }
}

impl VoteEntry {
    spec fn key(self) -> (Seq<char>, AccountId) {
        (self.poll_id@, self.voter)
    }
}

impl VoteLedger {
    spec fn holds(&self, key: (Seq<char>, AccountId)) -> bool {
        exists|i: int| 0 <= i < self.entries.len() && #[trigger] self.entries[i].key() == key
    }

    spec fn position(&self, key: (Seq<char>, AccountId)) -> int {
        choose|i: int| 0 <= i < self.entries.len() && #[trigger] self.entries[i].key() == key
    }

    /// The ledger is well formed: no pair of identifier and voter is stored
    /// twice.
    pub closed spec fn wf(&self) -> bool {
        forall|i: int, j: int|
            0 <= i < j < self.entries.len() ==> #[trigger] self.entries[i].key()
                != #[trigger] self.entries[j].key()
    }

    /// Under `wf`, a key found at an index is held, and at that index.
    proof fn lemma_position(&self, i: int)
        requires
            self.wf(),
            0 <= i < self.entries.len(),
        ensures
            self.holds(self.entries[i].key()),
            self.position(self.entries[i].key()) == i,
            self@.contains_key(self.entries[i].key()),
            self@[self.entries[i].key()] == self.entries[i].info,
    {
        let key = self.entries[i].key();
        let p = self.position(key);
        assert(0 <= p < self.entries.len() && self.entries[p].key() == key);
        if p < i {
            assert(self.entries[p].key() != self.entries[i].key());
        }
        if i < p {
            assert(self.entries[i].key() != self.entries[p].key());
        }
    }

    /// A ledger that holds no record.
    pub fn new() -> (r: VoteLedger)
        ensures
            r.wf(),
            r@ == Map::<(Seq<char>, AccountId), VotingInfo>::empty(),
    {
        VoteLedger { entries: Vec::new() }
    }

    fn find(&self, poll_id: &String, voter: &AccountId) -> (r: Option<usize>)
        ensures
            match r {
                Some(i) => i < self.entries.len() && self.entries[i as int].key() == (
                    poll_id@,
                    *voter,
                ),
                None => !self.holds((poll_id@, *voter)),
            },
    {
        let mut i: usize = 0;
        while i < self.entries.len()
            invariant
                i <= self.entries.len(),
                forall|j: int| 0 <= j < i ==> self.entries[j].key() != (poll_id@, *voter),
            decreases self.entries.len() - i,
        {
            if self.entries[i].voter == *voter && self.entries[i].poll_id == *poll_id {
                return Some(i);
            }
            i += 1;
        }
        None
    }

    /// The record stored for `voter` on `poll_id`, if there is one.
    pub fn get(&self, poll_id: &String, voter: &AccountId) -> (r: Option<VotingInfo>)
        requires
            self.wf(),
        ensures
            r == if self@.contains_key((poll_id@, *voter)) {
                Some(self@[(poll_id@, *voter)])
            } else {
                None
            },
    {
        match self.find(poll_id, voter) {
            Some(i) => {
                proof {
                    self.lemma_position(i as int);
                }
                Some(self.entries[i].info)
            },
            None => None,
        }
    }

    /// Stores `info` for `voter` on `poll_id`, in place of what was stored
    /// there.
    pub fn put(&mut self, poll_id: String, voter: AccountId, info: VotingInfo)
        requires
            old(self).wf(),
        ensures
            final(self).wf(),
            final(self)@ == old(self)@.insert((poll_id@, voter), info),
    {
        let ghost key = (poll_id@, voter);
        let ghost slot: int;
        match self.find(&poll_id, &voter) {
            Some(i) => {
                self.entries[i].info = info;
                proof {
                    slot = i as int;
                }
            },
            None => {
                self.entries.push(VoteEntry { poll_id, voter, info });
                proof {
                    slot = old(self).entries.len() as int;
                }
            },
        }
        assert forall|k: (Seq<char>, AccountId)|
            old(self)@.insert(key, info).contains_key(k) implies #[trigger] self@.contains_key(k)
            && self@[k] == old(self)@.insert(key, info)[k] by {
            if k == key {
                self.lemma_position(slot);
            } else {
                let at = old(self).position(k);
                old(self).lemma_position(at);
                self.lemma_position(at);
            }
        }
        assert forall|k: (Seq<char>, AccountId)| self@.contains_key(k) implies #[trigger] old(
            self,
        )@.insert(key, info).contains_key(k) by {
            if k != key {
                let at = self.position(k);
                old(self).lemma_position(at);
            }
        }
    }
}

} // verus!
