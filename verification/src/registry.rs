//! The poll registry: a keyed store from a poll's identifier to its
//! configuration. It validates nothing; the rules are applied by its user.

use vstd::prelude::*;
use crate::types::PollInfo;

verus! {

struct PollEntry {
    poll_id: String,
    info: PollInfo,
}

/// Maps poll identifiers to poll configurations.
pub struct PollRegistry {
    entries: Vec<PollEntry>,
}

impl View for PollRegistry {
    type V = Map<Seq<char>, PollInfo>;

    /// The registry as a map from identifier to configuration.
    closed spec fn view(&self) -> Map<Seq<char>, PollInfo> {
        Map::new(
            |id: Seq<char>| self.holds(id),
            |id: Seq<char>| self.entries[self.position(id)].info,
        )
    }
}

impl PollRegistry {
    spec fn holds(&self, id: Seq<char>) -> bool {
        exists|i: int| 0 <= i < self.entries.len() && #[trigger] self.entries[i].poll_id@ == id
    }

    spec fn position(&self, id: Seq<char>) -> int {
        choose|i: int| 0 <= i < self.entries.len() && #[trigger] self.entries[i].poll_id@ == id
    }

    /// The registry is well formed: no identifier is stored twice.
    pub closed spec fn wf(&self) -> bool {
        forall|i: int, j: int|
            0 <= i < j < self.entries.len() ==> #[trigger] self.entries[i].poll_id@
                != #[trigger] self.entries[j].poll_id@
    }

    /// Under `wf`, an identifier found at an index is held, and at that index.
    proof fn lemma_position(&self, i: int)
        requires
            self.wf(),
            0 <= i < self.entries.len(),
        ensures
            self.holds(self.entries[i].poll_id@),
            self.position(self.entries[i].poll_id@) == i,
            self@.contains_key(self.entries[i].poll_id@),
            self@[self.entries[i].poll_id@] == self.entries[i].info,
    {
        let id = self.entries[i].poll_id@;
        let p = self.position(id);
        assert(0 <= p < self.entries.len() && self.entries[p].poll_id@ == id);
        if p < i {
            assert(self.entries[p].poll_id@ != self.entries[i].poll_id@);
        }
        if i < p {
            assert(self.entries[i].poll_id@ != self.entries[p].poll_id@);
        }
    }

    /// A registry that holds no poll.
    pub fn new() -> (r: PollRegistry)
        ensures
            r.wf(),
            r@ == Map::<Seq<char>, PollInfo>::empty(),
    {
        PollRegistry { entries: Vec::new() }
    }

    fn find(&self, poll_id: &String) -> (r: Option<usize>)
        ensures
            match r {
                Some(i) => i < self.entries.len() && self.entries[i as int].poll_id@ == poll_id@,
                None => !self.holds(poll_id@),
            },
    {
        let mut i: usize = 0;
        while i < self.entries.len()
            invariant
                i <= self.entries.len(),
                forall|j: int| 0 <= j < i ==> self.entries[j].poll_id@ != poll_id@,
            decreases self.entries.len() - i,
        {
            if self.entries[i].poll_id == *poll_id {
                return Some(i);
            }
            i += 1;
        }
        None
    }

    /// The configuration stored under `poll_id`, if there is one.
    pub fn get(&self, poll_id: &String) -> (r: Option<PollInfo>)
        requires
            self.wf(),
        ensures
            r == if self@.contains_key(poll_id@) {
                Some(self@[poll_id@])
            } else {
                None
            },
    {
        match self.find(poll_id) {
            Some(i) => {
                proof {
                    self.lemma_position(i as int);
                }
                Some(self.entries[i].info)
            },
            None => None,
        }
    }

    /// Stores `info` under `poll_id`, in place of what was stored there.
    pub fn put(&mut self, poll_id: String, info: PollInfo)
        requires
            old(self).wf(),
        ensures
            final(self).wf(),
            final(self)@ == old(self)@.insert(poll_id@, info),
    {
        let ghost id = poll_id@;
        let ghost slot: int;
        match self.find(&poll_id) {
            Some(i) => {
                self.entries[i].info = info;
                proof {
                    slot = i as int;
                }
            },
            None => {
                self.entries.push(PollEntry { poll_id, info });
                proof {
                    slot = old(self).entries.len() as int;
                }
            },
        }
        assert forall|k: Seq<char>| old(self)@.insert(id, info).contains_key(k) implies #[trigger]
            self@.contains_key(k) && self@[k] == old(self)@.insert(id, info)[k] by {
            if k == id {
                self.lemma_position(slot);
            } else {
                let at = old(self).position(k);
                old(self).lemma_position(at);
                self.lemma_position(at);
            }
        }
        assert forall|k: Seq<char>| self@.contains_key(k) implies #[trigger] old(self)@.insert(
            id,
            info,
        ).contains_key(k) by {
            if k != id {
                let at = self.position(k);
                old(self).lemma_position(at);
            }
        }
    }
}

} // verus!
