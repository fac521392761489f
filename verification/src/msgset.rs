//! Per-phase vote collection: signed messages keyed by sender, one vote per
//! sender, kept in insertion order.

use vstd::prelude::*;

use crate::errors::ConsensusError;
use crate::types::{GossipMessage, GossipModel, Signature};
use crate::validator::ValidatorSet;
use crate::wire::bytes_eq;

verus! {

/// A set of signed votes for one (phase, subject) pair. Each sender
/// contributes at most one message; insertion order is preserved.
pub struct MessageSet {
    pub msgs: Vec<GossipMessage>,
}

impl MessageSet {
    /// The collected messages, in insertion order.
    pub open spec fn view(self) -> Seq<GossipModel> {
        self.msgs@.map(|i: int, m: GossipMessage| m@)
    }

    pub open spec fn has_sender(self, sender: Seq<u8>) -> bool {
        exists|i: int| 0 <= i < self@.len() && (#[trigger] self@[i]).sender == sender
    }

    /// No two collected messages share a sender.
    pub open spec fn distinct_senders(self) -> bool {
        forall|i: int, j: int|
            0 <= i < j < self@.len() ==> (#[trigger] self@[i]).sender != (#[trigger] self@[j]).sender
    }

    pub open spec fn all_wf(self) -> bool {
        forall|i: int| 0 <= i < self@.len() ==> (#[trigger] self@[i]).wf()
    }

    pub open spec fn wf(self) -> bool {
        self.distinct_senders() && self.all_wf()
    }

    pub fn new() -> (s: MessageSet)
        ensures
            s.wf(),
            s@ =~= Seq::<GossipModel>::empty(),
    {
        MessageSet { msgs: Vec::new() }
    }

    pub fn len(&self) -> (n: usize)
        ensures
            n == self@.len(),
    {
        self.msgs.len()
    }

    pub fn contains(&self, sender: &Vec<u8>) -> (r: bool)
        ensures
            r == self.has_sender(sender@),
    {
        let n = self.msgs.len();
        let mut i: usize = 0;
        while i < n
            invariant
                i <= n,
                n == self@.len(),
                forall|j: int| 0 <= j < i ==> (#[trigger] self@[j]).sender != sender@,
            decreases n - i,
        {
            if bytes_eq(&self.msgs[i].sender.bytes, sender) {
                proof {
                    assert(self@[i as int].sender == sender@);
                }
                return true;
            }
            i += 1;
        }
        false
    }

    /// The collected messages, in insertion order.
    pub fn values(&self) -> (r: &Vec<GossipMessage>)
        ensures
            r@.map(|i: int, m: GossipMessage| m@) == self@,
    {
        &self.msgs
    }

    /// The message at position `i`, in insertion order.
    pub fn get(&self, i: usize) -> (m: &GossipMessage)
        requires
            i < self@.len(),
        ensures
            m@ == self@[i as int],
    {
        &self.msgs[i]
    }

    /// Adds a vote. A sender already present is refused as `Duplicate`
    /// (checked first); a sender outside the validator set as
    /// `UnknownSender`; otherwise the message is appended.
    pub fn add(&mut self, msg: GossipMessage, vals: &ValidatorSet) -> (r: Result<
        (),
        ConsensusError,
    >)
        requires
            old(self).wf(),
            msg.wf(),
        ensures
            final(self).wf(),
            match r {
                Ok(()) => !old(self).has_sender(msg@.sender) && vals.contains_addr(msg@.sender)
                    && final(self)@ == old(self)@.push(msg@),
                Err(e) => *final(self) == *old(self) && (e == ConsensusError::Duplicate ==> old(
                    self,
                ).has_sender(msg@.sender)) && (e == ConsensusError::UnknownSender ==> !old(
                    self,
                ).has_sender(msg@.sender) && !vals.contains_addr(msg@.sender)) && (e
                    == ConsensusError::Duplicate || e == ConsensusError::UnknownSender) && (old(
                    self,
                ).has_sender(msg@.sender) ==> e == ConsensusError::Duplicate),
            },
    {
        if self.contains(&msg.sender.bytes) {
            return Err(ConsensusError::Duplicate);
        }
        if !vals.is_member(&msg.sender) {
            return Err(ConsensusError::UnknownSender);
        }
        let ghost old_view = self@;
        let ghost m = msg@;
        self.msgs.push(msg);
        proof {
            assert(self@ =~= old_view.push(m));
        }
        Ok(())
    }

    /// The commit seals of the collected messages, in insertion order; the
    /// quorum certificate is built from them.
    pub fn commit_seals(&self) -> (r: Vec<Signature>)
        requires
            forall|i: int| 0 <= i < self@.len() ==> (#[trigger] self@[i]).commit_seal is Some,
        ensures
            r@.len() == self@.len(),
            forall|i: int| 0 <= i < self@.len() ==> (#[trigger] r@[i]@) == self@[i].commit_seal.unwrap(),
    {
        let n = self.msgs.len();
        let mut r: Vec<Signature> = Vec::new();
        let mut i: usize = 0;
        while i < n
            invariant
                i <= n,
                n == self@.len(),
                forall|k: int| 0 <= k < self@.len() ==> (#[trigger] self@[k]).commit_seal is Some,
                r@.len() == i,
                forall|k: int| 0 <= k < i ==> (#[trigger] r@[k]@) == self@[k].commit_seal.unwrap(),
            decreases n - i,
        {
            match &self.msgs[i].commit_seal {
                Some(seal) => {
                    r.push(seal.clone());
                },
                None => {
                    proof {
                        assert(self@[i as int].commit_seal is Some);
                        assert(false);
                    }
                },
            }
            i += 1;
        }
        r
    }
}

} // verus!
