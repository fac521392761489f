//! The consensus state machine for one block height: the three-phase vote
//! (Pre-Prepare, Prepare, Commit) with locking, quorum detection, the
//! round-change protocol and timer backoff.
//!
//! The core is a pure decision component. Signing, signature recovery,
//! networking, block validation and timers are collaborators: handlers take
//! their outcomes as arguments and return the [`Action`]s the caller must
//! perform. On every code path the contracts pin how the state may move:
//! the height never changes except through `start_new_height`, a finalize
//! action is emitted only on the single transition into `Committed`, and a
//! stale message leaves the state untouched.

use vstd::prelude::*;
use vstd::arithmetic::power2::pow2;

use crate::codec::{decode_proposal, decode_subject, spec_decode_proposal, spec_decode_subject};
use crate::config::Config;
use crate::errors::ConsensusError;
use crate::msgset::MessageSet;
use crate::types::{
    Address, Block, Digest, GossipMessage, GossipModel, MessageType, Proposal, ProposalModel,
    Signature, Subject, SubjectModel, ViewId,
};
use crate::validator::ValidatorSet;

verus! {

/// The phase of the node within the current view.
#[derive(Clone, Copy, PartialEq, Eq, Structural, Debug)]
pub enum ConsState {
    /// Waiting for a proposal.
    AcceptRequest,
    /// A proposal was accepted; collecting Prepare votes.
    Preprepared,
    /// Prepare quorum reached; locked on the proposal's digest.
    Prepared,
    /// Commit quorum reached; the block was handed to finalization.
    Committed,
    /// The height is complete.
    FinalCommitted,
}

/// Phases in protocol order, for `<` comparisons between states.
pub open spec fn rank(s: ConsState) -> int {
    match s {
        ConsState::AcceptRequest => 0,
        ConsState::Preprepared => 1,
        ConsState::Prepared => 2,
        ConsState::Committed => 3,
        ConsState::FinalCommitted => 4,
    }
}

/// Classification of an inbound message's view against the current view.
#[derive(Clone, Copy, PartialEq, Eq, Structural, Debug)]
pub enum MessageCheck {
    /// The message belongs to the current view.
    Current,
    /// The message is ahead of the current view; it is buffered.
    Future,
    /// The message lies behind the current view and is dropped.
    Stale,
    /// A Commit for the immediately prior height, answered for completion.
    CommitForOld,
}

/// What the caller must perform after a handler returns: gossip broadcasts,
/// block finalization and timer arms. The caller signs outgoing messages.
pub enum Action {
    /// Broadcast a Pre-Prepare carrying this proposal.
    BroadcastPreprepare { proposal: Proposal },
    /// Broadcast a Prepare carrying this subject.
    BroadcastPrepare { subject: Subject },
    /// Broadcast a Commit carrying this subject and a seal over its digest.
    BroadcastCommit { subject: Subject },
    /// Broadcast a RoundChange targeting this view.
    BroadcastRoundChange { target: ViewId },
    /// Pass a newly collected vote on to the other validators, so that
    /// quorums converge faster.
    Rebroadcast { message: GossipMessage },
    /// Hand the block and its quorum certificate to the block backend.
    Finalize { block: Block, seals: Vec<Signature> },
    /// Arm the round timer with this many milliseconds.
    StartRoundTimer { millis: u64 },
    /// Arm the proposer's request timer with this many milliseconds.
    StartRequestTimer { millis: u64 },
}

/// True when some action in the sequence finalizes a block.
pub open spec fn has_finalize(actions: Seq<Action>) -> bool {
    exists|i: int| 0 <= i < actions.len() && (#[trigger] actions[i]) is Finalize
}

/// Volatile per-view state, replaced on view change.
pub struct RoundState {
    pub view: ViewId,
    pub proposal: Option<Proposal>,
    pub locked_hash: Option<Digest>,
    pub prepares: MessageSet,
    pub commits: MessageSet,
}

/// The RoundChange votes collected for one target round.
pub struct RoundChangeEntry {
    pub round: u64,
    pub votes: MessageSet,
}

/// RoundChange votes grouped by target round, each group deduplicated by
/// sender.
pub struct RoundChangeSet {
    pub entries: Vec<RoundChangeEntry>,
}

impl RoundChangeSet {
    pub open spec fn wf(self) -> bool {
        &&& forall|i: int, j: int|
            0 <= i < j < self.entries@.len() ==> (#[trigger] self.entries@[i]).round != (
            #[trigger] self.entries@[j]).round
        &&& forall|i: int| 0 <= i < self.entries@.len() ==> (#[trigger] self.entries@[i]).votes.wf()
    }

    pub open spec fn spec_has_round(self, round: u64) -> bool {
        exists|i: int| 0 <= i < self.entries@.len() && (#[trigger] self.entries@[i]).round == round
    }

    pub open spec fn spec_round_index(self, round: u64) -> int {
        choose|i: int| 0 <= i < self.entries@.len() && (#[trigger] self.entries@[i]).round == round
    }

    /// The votes collected so far for a target round.
    pub open spec fn spec_votes(self, round: u64) -> Seq<GossipModel> {
        if self.spec_has_round(round) {
            self.entries@[self.spec_round_index(round)].votes@
        } else {
            Seq::empty()
        }
    }

    pub fn new() -> (s: RoundChangeSet)
        ensures
            s.wf(),
            s.entries@.len() == 0,
            forall|r: u64| #[trigger] s.spec_votes(r) =~= Seq::<GossipModel>::empty(),
    {
        RoundChangeSet { entries: Vec::new() }
    }

    fn find(&self, round: u64) -> (r: Option<usize>)
        requires
            self.wf(),
        ensures
            match r {
                Some(i) => i < self.entries@.len() && self.entries@[i as int].round == round
                    && self.spec_has_round(round) && self.spec_round_index(round) == i,
                None => !self.spec_has_round(round),
            },
    {
        let n = self.entries.len();
        let mut i: usize = 0;
        while i < n
            invariant
                i <= n,
                n == self.entries@.len(),
                self.wf(),
                forall|j: int| 0 <= j < i ==> (#[trigger] self.entries@[j]).round != round,
            decreases n - i,
        {
            if self.entries[i].round == round {
                proof {
                    let w = self.spec_round_index(round);
                    assert(0 <= w < self.entries@.len() && self.entries@[w].round == round);
                    assert(w == i);
                }
                return Some(i);
            }
            i += 1;
        }
        None
    }

    /// Whether some collected vote for `round` came from `sender`.
    pub open spec fn spec_has_vote_from(self, round: u64, sender: Seq<u8>) -> bool {
        exists|i: int|
            0 <= i < self.spec_votes(round).len() && (#[trigger] self.spec_votes(round)[i]).sender
                == sender
    }

    /// Adds a RoundChange vote for `round`; on success returns how many
    /// distinct senders now back that round. A sender already backing that
    /// round is refused as `Duplicate`, one outside the validator set as
    /// `UnknownSender`.
    pub fn add_vote(&mut self, round: u64, msg: GossipMessage, vals: &ValidatorSet) -> (r: Result<
        usize,
        ConsensusError,
    >)
        requires
            old(self).wf(),
            msg.wf(),
        ensures
            final(self).wf(),
            match r {
                Ok(c) => final(self).spec_votes(round) == old(self).spec_votes(round).push(msg@)
                    && c == final(self).spec_votes(round).len() && vals.contains_addr(msg@.sender)
                    && !old(self).spec_has_vote_from(round, msg@.sender),
                Err(e) => *final(self) == *old(self) && (e == ConsensusError::Duplicate <==> old(
                    self,
                ).spec_has_vote_from(round, msg@.sender)) && (e == ConsensusError::UnknownSender
                    ==> !vals.contains_addr(msg@.sender)) && (e == ConsensusError::Duplicate || e
                    == ConsensusError::UnknownSender),
            },
    {
        match self.find(round) {
            Some(i) => {
                let ghost old_votes = self.spec_votes(round);
                if self.entries[i].votes.contains(&msg.sender.bytes) {
                    return Err(ConsensusError::Duplicate);
                }
                if !vals.is_member(&msg.sender) {
                    return Err(ConsensusError::UnknownSender);
                }
                let mut entry = self.entries.remove(i);
                match entry.votes.add(msg, vals) {
                    Ok(()) => {
                        let c = entry.votes.len();
                        self.entries.insert(i, entry);
                        proof {
                            assert(self.entries@[i as int].round == round);
                            assert(self.spec_has_round(round));
                            let w = self.spec_round_index(round);
                            assert(0 <= w < self.entries@.len() && self.entries@[w].round
                                == round);
                            assert(forall|a: int, b: int|
                                0 <= a < b < self.entries@.len() ==> (
                                #[trigger] self.entries@[a]).round != (
                                #[trigger] self.entries@[b]).round);
                            assert(w == i);
                            assert(self.spec_votes(round) =~= old_votes.push(msg@));
                        }
                        Ok(c)
                    },
                    Err(e) => {
                        proof {
                            assert(false);
                        }
                        Err(e)
                    },
                }
            },
            None => {
                let mut votes = MessageSet::new();
                match votes.add(msg, vals) {
                    Ok(()) => {
                        let c = votes.len();
                        let n = self.entries.len();
                        self.entries.push(RoundChangeEntry { round, votes });
                        proof {
                            assert(self.entries@[n as int].round == round);
                            assert(self.spec_has_round(round));
                            let w = self.spec_round_index(round);
                            assert(0 <= w < self.entries@.len() && self.entries@[w].round
                                == round);
                            assert(forall|j: int|
                                0 <= j < n ==> (#[trigger] self.entries@[j]).round != round);
                            assert(w == n);
                            assert(old(self).spec_votes(round) =~= Seq::<GossipModel>::empty());
                            assert(self.spec_votes(round) =~= old(self).spec_votes(round).push(
                                msg@,
                            ));
                        }
                        Ok(c)
                    },
                    Err(e) => Err(e),
                }
            },
        }
    }
}

} // verus!

verus! {

/// The consensus core for one validator at one height.
pub struct Core {
    pub config: Config,
    /// This node's own validator address.
    pub address: Address,
    /// The validator set of the current height.
    pub vals: ValidatorSet,
    /// The proposer-rotation seed of the current height, derived by the
    /// collaborators from the previously committed block.
    pub seed: u64,
    pub state: ConsState,
    pub current: RoundState,
    pub round_changes: RoundChangeSet,
    /// Consecutive round changes within this height; the backoff exponent.
    pub round_change_count: u64,
    /// Messages ahead of the current view, kept for later processing;
    /// bounded by four slots per validator, evicting the oldest.
    pub future: Vec<GossipMessage>,
    /// Per-peer counts of rejected messages, for the transport to read.
    pub misbehaviour_book: MisbehaviourBook,
}

impl Core {
    /// Whether the node has reached `Committed` (or beyond) in this height.
    pub open spec fn committed(self) -> bool {
        rank(self.state) >= rank(ConsState::Committed)
    }

    /// The digest the node is locked on, if any.
    pub open spec fn spec_locked(self) -> Option<Seq<u8>> {
        match self.current.locked_hash {
            Some(d) => Some(d@),
            None => None,
        }
    }

    /// The digest of the current proposal; empty if none was accepted yet.
    pub open spec fn spec_proposal_digest(self) -> Seq<u8> {
        match self.current.proposal {
            Some(p) => p@.block.digest,
            None => Seq::empty(),
        }
    }

    /// The subject under vote: the current view and the current proposal's
    /// digest.
    pub open spec fn spec_current_subject(self) -> SubjectModel {
        SubjectModel { view: self.current.view, digest: self.spec_proposal_digest() }
    }

    /// The commit quorum threshold of the current validator set.
    pub open spec fn spec_quorum(self) -> int {
        self.vals.spec_two_thirds_majority()
    }

    /// The structural invariant of the core. Constructors establish it and
    /// every handler preserves it. It carries the safety-critical facts:
    /// vote sets hold one vote per sender, every collected Commit carries a
    /// seal, a proposal exists exactly beyond `AcceptRequest`, and from
    /// `Prepared` on the node is locked on the current proposal's digest.
    pub open spec fn wf(self) -> bool {
        &&& self.vals.wf()
        &&& self.address.wf()
        &&& self.current.prepares.wf()
        &&& self.current.commits.wf()
        &&& forall|i: int|
            0 <= i < self.current.commits@.len() ==> (#[trigger] self.current.commits@[i]).kind
                is Commit
        &&& match self.current.proposal {
            Some(p) => p.wf() && rank(self.state) >= 1,
            None => rank(self.state) == 0,
        }
        &&& match self.current.locked_hash {
            Some(d) => d.wf(),
            None => true,
        }
        &&& rank(self.state) >= 2 ==> self.spec_locked() == Some(self.spec_proposal_digest())
        &&& self.round_changes.wf()
        &&& self.misbehaviour_book.wf()
        &&& self.future@.len() <= 4 * self.vals@.len()
        &&& forall|i: int| 0 <= i < self.future@.len() ==> (#[trigger] self.future@[i]).wf()
    }

    /// A fresh core at the start of a height, in `AcceptRequest` with empty
    /// vote sets and nothing locked.
    pub fn new(config: Config, address: Address, vals: ValidatorSet, seed: u64, height: u64) -> (c:
        Core)
        requires
            vals.wf(),
            address.wf(),
        ensures
            c.wf(),
            c.state is AcceptRequest,
            c.current.view == (ViewId { height, round: 0 }),
            c.current.proposal is None,
            c.current.locked_hash is None,
            c.current.prepares@.len() == 0,
            c.current.commits@.len() == 0,
            c.round_change_count == 0,
            c.future@.len() == 0,
            c.misbehaviour_book.entries@.len() == 0,
            c.config == config,
            c.vals == vals,
            c.address == address,
            c.seed == seed,
    {
        Core {
            config,
            address,
            vals,
            seed,
            state: ConsState::AcceptRequest,
            current: RoundState {
                view: ViewId { height, round: 0 },
                proposal: None,
                locked_hash: None,
                prepares: MessageSet::new(),
                commits: MessageSet::new(),
            },
            round_changes: RoundChangeSet::new(),
            round_change_count: 0,
            future: Vec::new(),
            misbehaviour_book: MisbehaviourBook::new(),
        }
    }

    /// Classification of an inbound message's view against the current one:
    /// ahead is `Future`, the current view is `Current`, behind is `Stale`,
    /// except a Commit for the immediately prior height, which is answered
    /// for completion.
    pub open spec fn spec_check_message(self, kind: MessageType, v: ViewId) -> MessageCheck {
        if self.current.view.spec_lt(v) {
            MessageCheck::Future
        } else if v == self.current.view {
            MessageCheck::Current
        } else if kind is Commit && v.height + 1 == self.current.view.height {
            MessageCheck::CommitForOld
        } else {
            MessageCheck::Stale
        }
    }

    pub fn check_message(&self, kind: MessageType, v: &ViewId) -> (r: MessageCheck)
        ensures
            r == self.spec_check_message(kind, *v),
    {
        if self.current.view.is_before(v) {
            MessageCheck::Future
        } else if v.equals(&self.current.view) {
            MessageCheck::Current
        } else if matches!(kind, MessageType::Commit) && self.current.view.height > 0 && v.height
            == self.current.view.height - 1 {
            MessageCheck::CommitForOld
        } else {
            MessageCheck::Stale
        }
    }

    /// The requirements on a Commit vote: a seal must be present, the seal
    /// must recover to the message's sender, and the subject must equal the
    /// current proposal's subject. `recovered` is the address that the
    /// signer collaborator recovered from the seal over `subject.digest`.
    pub fn verify_commit(
        &self,
        commit_seal: &Option<Signature>,
        subject: &Subject,
        sender: &Address,
        recovered: &Option<Address>,
    ) -> (r: Result<(), ConsensusError>)
        requires
            self.wf(),
            self.current.proposal is Some,
        ensures
            match r {
                Ok(()) => commit_seal is Some && (recovered matches Some(a) && a@ == sender@)
                    && subject@ == self.spec_current_subject(),
                Err(e) => {
                    &&& (e == ConsensusError::MissingSeal <==> commit_seal is None)
                    &&& (e == ConsensusError::SealSenderMismatch ==> commit_seal is Some && !(
                    recovered matches Some(a) && a@ == sender@))
                    &&& (e == ConsensusError::InconsistentSubject ==> commit_seal is Some && (
                    recovered matches Some(a) && a@ == sender@) && subject@
                        != self.spec_current_subject())
                    &&& (e == ConsensusError::MissingSeal || e == ConsensusError::SealSenderMismatch
                        || e == ConsensusError::InconsistentSubject)
                },
            },
    {
        if commit_seal.is_none() {
            return Err(ConsensusError::MissingSeal);
        }
        let recovered_matches = match recovered {
            Some(a) => a.equals(sender),
            None => false,
        };
        if !recovered_matches {
            return Err(ConsensusError::SealSenderMismatch);
        }
        match &self.current.proposal {
            Some(p) => {
                if subject.view.equals(&self.current.view) && subject.digest.equals(
                    &p.block.digest,
                ) {
                    proof {
                        assert(subject@ =~= self.spec_current_subject());
                    }
                    Ok(())
                } else {
                    proof {
                        assert(subject@ != self.spec_current_subject());
                    }
                    Err(ConsensusError::InconsistentSubject)
                }
            },
            None => {
                proof {
                    assert(false);
                }
                Err(ConsensusError::InconsistentSubject)
            },
        }
    }

    /// Inserts a verified Commit vote into the commit set.
    pub fn accept(&mut self, msg: GossipMessage) -> (r: Result<(), ConsensusError>)
        requires
            old(self).wf(),
            msg.wf(),
            msg@.kind is Commit,
        ensures
            final(self).wf(),
            final(self).state == old(self).state,
            final(self).current.view == old(self).current.view,
            final(self).current.proposal == old(self).current.proposal,
            final(self).current.locked_hash == old(self).current.locked_hash,
            final(self).current.prepares == old(self).current.prepares,
            final(self).config == old(self).config,
            final(self).address == old(self).address,
            final(self).vals == old(self).vals,
            final(self).seed == old(self).seed,
            final(self).round_changes == old(self).round_changes,
            final(self).round_change_count == old(self).round_change_count,
            final(self).future == old(self).future,
            final(self).misbehaviour_book == old(self).misbehaviour_book,
            match r {
                Ok(()) => final(self).current.commits@ == old(self).current.commits@.push(msg@)
                    && !old(self).current.commits.has_sender(msg@.sender)
                    && old(self).vals.contains_addr(msg@.sender),
                Err(e) => *final(self) == *old(self) && (e == ConsensusError::Duplicate || e
                    == ConsensusError::UnknownSender) && (e == ConsensusError::Duplicate <==> old(self).current.commits.has_sender(msg@.sender)) && (e
                    == ConsensusError::UnknownSender ==> !old(self).vals.contains_addr(
                    msg@.sender,
                )),
            },
    {
        self.current.commits.add(msg, &self.vals)
    }

    /// One broadcast-commit action for this subject; the caller signs a
    /// seal over the subject's digest.
    pub fn broadcast_commit(&self, subject: Subject) -> (r: Vec<Action>)
        requires
            subject.wf(),
        ensures
            r@.len() == 1,
            r@[0] matches Action::BroadcastCommit { subject: s } && s@ == subject@,
    {
        let mut actions: Vec<Action> = Vec::new();
        actions.push(Action::BroadcastCommit { subject });
        actions
    }

    /// A Commit vote for the current proposal.
    pub fn send_commit(&self) -> (r: Vec<Action>)
        requires
            self.wf(),
            self.current.proposal is Some,
        ensures
            r@.len() == 1,
            r@[0] matches Action::BroadcastCommit { subject } && subject@
                == self.spec_current_subject(),
    {
        match &self.current.proposal {
            Some(p) => {
                let subject = Subject::new(self.current.view, p.block.digest.clone());
                self.broadcast_commit(subject)
            },
            None => {
                proof {
                    assert(false);
                }
                Vec::new()
            },
        }
    }

    /// A Commit vote for a block of an already-superseded view, so that
    /// lagging validators can complete their quorum certificate.
    pub fn send_commit_for_old_block(&self, view: &ViewId, digest: Digest) -> (r: Vec<Action>)
        requires
            digest.wf(),
        ensures
            r@.len() == 1,
            r@[0] matches Action::BroadcastCommit { subject } && subject@ == (SubjectModel {
                view: *view,
                digest: digest@,
            }),
    {
        let subject = Subject::new(*view, digest);
        self.broadcast_commit(subject)
    }

    /// Marks the height as complete after the commit quorum certificate was
    /// persisted with the block.
    pub fn set_final_committed(&mut self)
        requires
            old(self).wf(),
            old(self).state is Committed,
        ensures
            final(self).wf(),
            final(self).state is FinalCommitted,
            *final(self) == (Core { state: ConsState::FinalCommitted, ..*old(self) }),
    {
        self.state = ConsState::FinalCommitted;
    }
}

} // verus!

verus! {

/// The round timeout after `k` consecutive round changes within one
/// height: `block_period * 2^k`, saturating at the integer's maximum.
pub open spec fn spec_backoff(base: u64, k: u64) -> int {
    if (base as int) * (pow2(k as nat) as int) <= u64::MAX {
        (base as int) * (pow2(k as nat) as int)
    } else {
        u64::MAX as int
    }
}

impl Core {
    /// How long the round timer must run before the next round change:
    /// exponential backoff of the configured base period.
    pub fn round_timeout_millis(&self) -> (r: u64)
        ensures
            r as int == spec_backoff(self.config.block_period, self.round_change_count),
    {
        let base = self.config.block_period;
        let k = self.round_change_count;
        if base == 0 {
            proof {
                assert((base as int) * (pow2(k as nat) as int) == 0) by (nonlinear_arith)
                    requires
                        base == 0,
                ;
            }
            return 0;
        }
        if k >= 64 {
            proof {
                vstd::arithmetic::power2::lemma2_to64();
                if k > 64 {
                    vstd::arithmetic::power2::lemma_pow2_strictly_increases(64, k as nat);
                }
                assert((base as int) * (pow2(k as nat) as int) > u64::MAX) by (nonlinear_arith)
                    requires
                        base >= 1,
                        pow2(k as nat) > u64::MAX,
                ;
            }
            return u64::MAX;
        }
        let factor: u64 = 1u64 << k;
        proof {
            vstd::bits::lemma_u64_pow2_no_overflow(k as nat);
            vstd::bits::lemma_u64_shl_is_mul(1u64, k);
            vstd::arithmetic::power2::lemma_pow2_pos(k as nat);
        }
        let q = u64::MAX / factor;
        proof {
            vstd::arithmetic::div_mod::lemma_fundamental_div_mod(u64::MAX as int, factor as int);
        }
        if base > q {
            proof {
                let rem = (u64::MAX as int) % (factor as int);
                assert((base as int) * (factor as int) > u64::MAX) by (nonlinear_arith)
                    requires
                        base as int >= q as int + 1,
                        u64::MAX as int == (factor as int) * (q as int) + rem,
                        0 <= rem < factor as int,
                ;
            }
            return u64::MAX;
        }
        proof {
            let rem = (u64::MAX as int) % (factor as int);
            assert((base as int) * (factor as int) <= u64::MAX) by (nonlinear_arith)
                requires
                    base as int <= q as int,
                    u64::MAX as int == (factor as int) * (q as int) + rem,
                    0 <= rem < factor as int,
            ;
        }
        base * factor
    }

    /// Buffers a message ahead of the current view. The buffer holds at
    /// most four entries per validator; when full, the oldest is evicted.
    fn buffer_future(&mut self, msg: GossipMessage)
        requires
            old(self).wf(),
            msg.wf(),
        ensures
            final(self).wf(),
            final(self).state == old(self).state,
            final(self).current == old(self).current,
            final(self).config == old(self).config,
            final(self).address == old(self).address,
            final(self).vals == old(self).vals,
            final(self).seed == old(self).seed,
            final(self).round_changes == old(self).round_changes,
            final(self).round_change_count == old(self).round_change_count,
            final(self).misbehaviour_book == old(self).misbehaviour_book,
            final(self).future@.len() > 0 && final(self).future@.last() == msg,
    {
        let n = self.vals.len();
        if (self.future.len() as u128) >= 4 * (n as u128) {
            let _evicted = self.future.remove(0);
        }
        self.future.push(msg);
    }

    /// Hands back the buffered future messages, emptying the buffer; the
    /// caller re-delivers them after the view advances.
    pub fn drain_future(&mut self) -> (r: Vec<GossipMessage>)
        requires
            old(self).wf(),
        ensures
            final(self).wf(),
            r@ == old(self).future@,
            final(self).future@.len() == 0,
            final(self).misbehaviour_book == old(self).misbehaviour_book,
            final(self).state == old(self).state,
            final(self).current == old(self).current,
            final(self).config == old(self).config,
            final(self).address == old(self).address,
            final(self).vals == old(self).vals,
            final(self).seed == old(self).seed,
            final(self).round_changes == old(self).round_changes,
            final(self).round_change_count == old(self).round_change_count,
    {
        let mut out: Vec<GossipMessage> = Vec::new();
        std::mem::swap(&mut self.future, &mut out);
        out
    }
}

} // verus!

verus! {

/// The protocol order of a state, as a number (see [`rank`]).
pub fn state_rank(s: ConsState) -> (r: u8)
    ensures
        r as int == rank(s),
{
    match s {
        ConsState::AcceptRequest => 0,
        ConsState::Preprepared => 1,
        ConsState::Prepared => 2,
        ConsState::Committed => 3,
        ConsState::FinalCommitted => 4,
    }
}

/// Fields that no message handler may change: the node's identity, its
/// configuration, the validator set, the seed, and the height.
pub open spec fn frame(pre: Core, post: Core) -> bool {
    &&& post.config == pre.config
    &&& post.address == pre.address
    &&& post.vals == pre.vals
    &&& post.seed == pre.seed
    &&& post.current.view.height == pre.current.view.height
}

impl Core {
    /// Handles an inbound Prepare vote. `auth` is the address the signer
    /// collaborator recovered from the message's envelope signature.
    ///
    /// A vote counts only if it belongs to the current view, its sender is
    /// authenticated and a validator, and its subject equals the current
    /// proposal's subject; a repeated vote from the same sender is swallowed
    /// without effect. A newly collected vote is passed on to the other
    /// validators. When the collected votes plus the implicit proposal vote
    /// reach the two-thirds quorum, the node locks on the proposal's
    /// digest, moves to `Prepared`, and broadcasts its Commit.
    pub fn handle_prepare(&mut self, msg: &GossipMessage, auth: &Option<Address>) -> (r: (
        Result<(), ConsensusError>,
        Vec<Action>,
    ))
        requires
            old(self).wf(),
            msg.wf(),
            msg@.kind is Prepare,
        ensures
            final(self).wf(),
            frame(*old(self), *final(self)),
            final(self).current.view == old(self).current.view,
            final(self).current.proposal == old(self).current.proposal,
            final(self).current.commits == old(self).current.commits,
            final(self).round_changes == old(self).round_changes,
            final(self).round_change_count == old(self).round_change_count,
            rank(final(self).state) >= rank(old(self).state),
            !has_finalize(r.1@),
            // a stale message never affects the state
            (spec_decode_subject(msg@.payload) matches Some(s) && old(self).spec_check_message(
                MessageType::Prepare,
                s.view,
            ) is Stale) ==> r.0 == Err::<(), ConsensusError>(ConsensusError::Stale) && *final(self)
                == *old(self),
            // the vote set grows by this vote or not at all
            final(self).current.prepares@ == old(self).current.prepares@ || final(self).current.prepares@ == old(self).current.prepares@.push(msg@),
            // a vote is collected only for the current proposal's subject
            final(self).current.prepares@ != old(self).current.prepares@ ==> spec_decode_subject(
                msg@.payload,
            ) == Some(old(self).spec_current_subject()),
            // the lock is never cleared, and is set exactly on the
            // transition to Prepared, to the current proposal's digest
            final(self).spec_locked() == old(self).spec_locked() || final(self).spec_locked()
                == Some(old(self).spec_proposal_digest()),
            (rank(old(self).state) < 2 && rank(final(self).state) >= 2) ==> final(self).spec_locked() == Some(old(self).spec_proposal_digest()),
            // the state moves only to Prepared, and only from below it
            final(self).state == old(self).state || (rank(old(self).state) < 2 && final(self).state
                is Prepared),
            // an error leaves the round state and the phase untouched
            r.0 is Err ==> final(self).current == old(self).current && final(self).state == old(
                self).state,
            // a fresh vote that is accepted is recorded
            (r.0 is Ok && !old(self).current.prepares.has_sender(msg@.sender)) ==> final(
                self).current.prepares@ == old(self).current.prepares@.push(msg@),
            // exactly a newly collected vote is passed on, as the first action
            final(self).current.prepares@ != old(self).current.prepares@ <==> r.1@.len() >= 1,
            r.1@.len() >= 1 ==> (r.1@[0] matches Action::Rebroadcast { message } && message@
                == msg@),
            // the Commit broadcast accompanies exactly the transition to
            // Prepared, which the quorum compels
            r.1@.len() <= 2,
            (final(self).state is Prepared && rank(old(self).state) < 2) <==> r.1@.len() == 2,
            r.1@.len() == 2 ==> (r.1@[1] matches Action::BroadcastCommit { subject } && subject@
                == old(self).spec_current_subject()) && final(self).current.prepares@.len() + 1
                >= old(self).spec_quorum(),
            (final(self).current.prepares@ == old(self).current.prepares@.push(msg@) && final(
                self).current.prepares@.len() + 1 >= old(self).spec_quorum() && rank(old(
                self).state) < 2) ==> final(self).state is Prepared,
            // when the vote is owed acceptance, it is accepted
            r.0 is Ok <==> (spec_decode_subject(msg@.payload) matches Some(s) && old(self).spec_check_message(MessageType::Prepare, s.view) is Current && (auth matches Some(a)
                && a@ == msg@.sender) && old(self).current.proposal is Some && s == old(self).spec_current_subject() && (old(self).current.prepares.has_sender(msg@.sender) || old(self).vals.contains_addr(msg@.sender))),
    {
        let subject = match decode_subject(&msg.payload) {
            Some(s) => s,
            None => {
                return (Err(ConsensusError::InconsistentSubject), Vec::new());
            },
        };
        match self.check_message(MessageType::Prepare, &subject.view) {
            MessageCheck::Future => {
                self.buffer_future(msg.clone());
                return (Err(ConsensusError::Future), Vec::new());
            },
            MessageCheck::Stale => {
                return (Err(ConsensusError::Stale), Vec::new());
            },
            MessageCheck::CommitForOld => {
                proof {
                    assert(false);
                }
                return (Err(ConsensusError::Stale), Vec::new());
            },
            MessageCheck::Current => {},
        }
        let auth_ok = match auth {
            Some(a) => a.equals(&msg.sender),
            None => false,
        };
        if !auth_ok {
            return (Err(ConsensusError::BadSignature), Vec::new());
        }
        let digest = match &self.current.proposal {
            Some(p) => p.block.digest.clone(),
            None => {
                self.buffer_future(msg.clone());
                return (Err(ConsensusError::Future), Vec::new());
            },
        };
        if !(subject.view.equals(&self.current.view) && subject.digest.equals(&digest)) {
            proof {
                assert(subject@ != self.spec_current_subject());
            }
            return (Err(ConsensusError::InconsistentSubject), Vec::new());
        }
        proof {
            assert(subject@ =~= self.spec_current_subject());
        }
        match self.current.prepares.add(msg.clone(), &self.vals) {
            Ok(()) => {},
            Err(ConsensusError::Duplicate) => {
                return (Ok(()), Vec::new());
            },
            Err(e) => {
                return (Err(e), Vec::new());
            },
        }
        let mut actions: Vec<Action> = Vec::new();
        actions.push(Action::Rebroadcast { message: msg.clone() });
        let maj = self.vals.two_thirds_majority();
        if self.current.prepares.len() >= maj - 1 && state_rank(self.state) < 2 {
            self.current.locked_hash = Some(digest.clone());
            self.state = ConsState::Prepared;
            let commit_subject = Subject::new(self.current.view, digest);
            actions.push(Action::BroadcastCommit { subject: commit_subject });
        }
        (Ok(()), actions)
    }
}

} // verus!

verus! {

impl Core {
    /// Handles an inbound Commit vote. `auth` is the address recovered from
    /// the message's envelope signature; `seal_recovered` the address
    /// recovered from the commit seal over the subject's digest. Both come
    /// from the signer collaborator.
    ///
    /// A vote counts only if it belongs to the current view, its sender is
    /// authenticated and a validator, its seal recovers to the sender, and
    /// its subject equals the current proposal's subject; a newly collected
    /// vote is passed on to the other validators. A Commit for the
    /// immediately prior height is answered with this node's own Commit for
    /// that block, without touching any state. When the collected votes
    /// reach the two-thirds quorum and the node has not committed yet, it
    /// locks, moves to `Committed`, and hands the block with the seals of
    /// all collected votes to finalization -- at most once per height.
    pub fn handle_commit(
        &mut self,
        msg: &GossipMessage,
        auth: &Option<Address>,
        seal_recovered: &Option<Address>,
    ) -> (r: (Result<(), ConsensusError>, Vec<Action>))
        requires
            old(self).wf(),
            msg.wf(),
            msg@.kind is Commit,
        ensures
            final(self).wf(),
            frame(*old(self), *final(self)),
            final(self).current.view == old(self).current.view,
            final(self).current.proposal == old(self).current.proposal,
            final(self).current.prepares == old(self).current.prepares,
            final(self).round_changes == old(self).round_changes,
            final(self).round_change_count == old(self).round_change_count,
            rank(final(self).state) >= rank(old(self).state),
            // a stale message never affects the state
            (spec_decode_subject(msg@.payload) matches Some(s) && old(self).spec_check_message(
                MessageType::Commit,
                s.view,
            ) is Stale) ==> r.0 == Err::<(), ConsensusError>(ConsensusError::Stale) && *final(self)
                == *old(self),
            // a commit for the prior height is answered, nothing changes
            spec_decode_subject(msg@.payload) matches Some(s) ==> (old(self).spec_check_message(
                MessageType::Commit,
                s.view,
            ) is CommitForOld ==> *final(self) == *old(self) && r.0 is Ok && r.1@.len() == 1 && (
            r.1@[0] matches Action::BroadcastCommit { subject } && subject@ == s)),
            // the vote set grows by this vote or not at all
            final(self).current.commits@ == old(self).current.commits@ || final(
                self).current.commits@ == old(self).current.commits@.push(msg@),
            // a vote is collected only with a seal that recovers to its
            // sender, and only for the current proposal's subject
            final(self).current.commits@ != old(self).current.commits@ ==> msg@.commit_seal
                is Some && (seal_recovered matches Some(a) && a@ == msg@.sender)
                && spec_decode_subject(msg@.payload) == Some(old(self).spec_current_subject()),
            // an error leaves the round state and the phase untouched
            r.0 is Err ==> final(self).current == old(self).current && final(self).state == old(
                self).state,
            // a vote accepted for the current view is recorded
            spec_decode_subject(msg@.payload) matches Some(s) ==> ((r.0 is Ok && old(
                self).spec_check_message(MessageType::Commit, s.view) is Current) ==> final(
                self).current.commits@ == old(self).current.commits@.push(msg@)),
            // exactly a newly collected vote is passed on, as the first action
            final(self).current.commits@ != old(self).current.commits@ <==> (r.1@.len() >= 1 && (
            r.1@[0] matches Action::Rebroadcast { message } && message@ == msg@)),
            final(self).current.commits@ != old(self).current.commits@ && !has_finalize(r.1@)
                ==> r.1@.len() == 1,
            // a node that committed stays committed within the height
            old(self).committed() ==> final(self).committed(),
            // finalization happens exactly on the transition into Committed,
            // when this vote completes the quorum
            has_finalize(r.1@) <==> (!old(self).committed() && final(self).current.commits@ == old(
                self).current.commits@.push(msg@) && final(self).current.commits@.len() >= old(
                self).spec_quorum()),
            has_finalize(r.1@) ==> final(self).state is Committed && final(self).spec_locked()
                == Some(old(self).spec_proposal_digest()),
            !has_finalize(r.1@) ==> final(self).state == old(self).state && final(
                self).spec_locked() == old(self).spec_locked(),
            // the finalize action carries the proposed block and the seals
            // of all collected votes
            has_finalize(r.1@) ==> r.1@.len() == 2 && (r.1@[1] matches Action::Finalize {
                block,
                seals,
            } && Some(block@) == (match old(self).current.proposal {
                Some(p) => Some::<crate::types::BlockModel>(p@.block),
                None => None,
            }) && seals@.len() == final(self).current.commits@.len() && (forall|i: int|
                0 <= i < seals@.len() ==> (#[trigger] seals@[i]@) == final(
                    self).current.commits@[i].commit_seal.unwrap())),
            // when the vote is owed acceptance, it is accepted
            r.0 is Ok <==> (spec_decode_subject(msg@.payload) matches Some(s) && (old(
                self).spec_check_message(MessageType::Commit, s.view) is CommitForOld || (old(
                self).spec_check_message(MessageType::Commit, s.view) is Current && (auth matches
            Some(a) && a@ == msg@.sender) && old(self).current.proposal is Some && msg@.commit_seal
                is Some && (seal_recovered matches Some(b) && b@ == msg@.sender) && s == old(
                self).spec_current_subject() && !old(self).current.commits.has_sender(msg@.sender)
                && old(self).vals.contains_addr(msg@.sender)))),
    {
        let subject = match decode_subject(&msg.payload) {
            Some(s) => s,
            None => {
                return (Err(ConsensusError::InconsistentSubject), Vec::new());
            },
        };
        match self.check_message(MessageType::Commit, &subject.view) {
            MessageCheck::Future => {
                self.buffer_future(msg.clone());
                return (Err(ConsensusError::Future), Vec::new());
            },
            MessageCheck::Stale => {
                return (Err(ConsensusError::Stale), Vec::new());
            },
            MessageCheck::CommitForOld => {
                let actions = self.send_commit_for_old_block(&subject.view, subject.digest);
                return (Ok(()), actions);
            },
            MessageCheck::Current => {},
        }
        let auth_ok = match auth {
            Some(a) => a.equals(&msg.sender),
            None => false,
        };
        if !auth_ok {
            return (Err(ConsensusError::BadSignature), Vec::new());
        }
        if self.current.proposal.is_none() {
            self.buffer_future(msg.clone());
            return (Err(ConsensusError::Future), Vec::new());
        }
        match self.verify_commit(&msg.commit_seal, &subject, &msg.sender, seal_recovered) {
            Ok(()) => {},
            Err(e) => {
                return (Err(e), Vec::new());
            },
        }
        match self.accept(msg.clone()) {
            Ok(()) => {},
            Err(e) => {
                return (Err(e), Vec::new());
            },
        }
        let mut actions: Vec<Action> = Vec::new();
        actions.push(Action::Rebroadcast { message: msg.clone() });
        let maj = self.vals.two_thirds_majority();
        if self.current.commits.len() >= maj && state_rank(self.state) < 3 {
            let (digest, block) = match &self.current.proposal {
                Some(p) => (p.block.digest.clone(), p.block.clone()),
                None => {
                    proof {
                        assert(false);
                    }
                    return (Ok(()), Vec::new());
                },
            };
            self.current.locked_hash = Some(digest);
            self.state = ConsState::Committed;
            proof {
                assert(forall|i: int|
                    0 <= i < self.current.commits@.len() ==> (
                    #[trigger] self.current.commits@[i]).commit_seal is Some);
            }
            let seals = self.current.commits.commit_seals();
            actions.push(Action::Finalize { block, seals });
            proof {
                assert(actions@[1] is Finalize);
            }
            return (Ok(()), actions);
        }
        proof {
            assert(!has_finalize(actions@));
        }
        (Ok(()), actions)
    }
}

} // verus!

verus! {

impl Core {
    /// The view the node would move to on the next round change.
    pub open spec fn spec_next_round_view(self) -> ViewId {
        ViewId {
            height: self.current.view.height,
            round: if self.current.view.round < u64::MAX {
                (self.current.view.round + 1) as u64
            } else {
                u64::MAX
            },
        }
    }

    fn next_round_view(&self) -> (v: ViewId)
        ensures
            v == self.spec_next_round_view(),
    {
        let round = if self.current.view.round < u64::MAX {
            self.current.view.round + 1
        } else {
            u64::MAX
        };
        ViewId { height: self.current.view.height, round }
    }

    /// Handles an inbound Pre-Prepare. `auth` is the address recovered from
    /// the envelope signature; `block_valid` is the block backend's verdict
    /// on the proposed block.
    ///
    /// The proposal counts only if it belongs to the current view, comes
    /// authenticated from the view's proposer, is the first proposal of
    /// this view, carries the locked digest if the node is locked, and
    /// passes validation. Then the node records it, moves to `Preprepared`
    /// and broadcasts its Prepare; a proposal that contradicts the lock or
    /// fails validation is rejected and answered with a RoundChange.
    pub fn handle_preprepare(
        &mut self,
        msg: &GossipMessage,
        auth: &Option<Address>,
        block_valid: bool,
    ) -> (r: (Result<(), ConsensusError>, Vec<Action>))
        requires
            old(self).wf(),
            msg.wf(),
            msg@.kind is Preprepare,
        ensures
            final(self).wf(),
            frame(*old(self), *final(self)),
            final(self).current.view == old(self).current.view,
            final(self).current.prepares == old(self).current.prepares,
            final(self).current.commits == old(self).current.commits,
            final(self).current.locked_hash == old(self).current.locked_hash,
            final(self).round_changes == old(self).round_changes,
            final(self).round_change_count == old(self).round_change_count,
            rank(final(self).state) >= rank(old(self).state),
            !has_finalize(r.1@),
            // a stale message never affects the state
            (spec_decode_proposal(msg@.payload) matches Some(p) && old(self).spec_check_message(
                MessageType::Preprepare,
                p.view,
            ) is Stale) ==> r.0 == Err::<(), ConsensusError>(ConsensusError::Stale) && *final(self)
                == *old(self),
            // at most one proposal is ever accepted per view
            old(self).current.proposal is Some ==> final(self).current.proposal == old(
                self).current.proposal && final(self).state == old(self).state,
            r.0 is Err ==> final(self).current == old(self).current && final(self).state == old(
                self).state,
            // acceptance is owed exactly to the first valid proposal of the
            // current view, from its proposer, compatible with the lock
            r.0 is Ok <==> (spec_decode_proposal(msg@.payload) matches Some(p) && old(
                self).spec_check_message(MessageType::Preprepare, p.view) is Current && (auth
            matches Some(a) && a@ == msg@.sender) && msg@.sender == old(self).vals@[old(
                self).vals.spec_proposer_index(old(self).seed, old(self).current.view.round)]
                && old(self).current.proposal is None && (match old(self).spec_locked() {
                Some(d) => d == p.block.digest,
                None => true,
            }) && block_valid),
            // what acceptance does: record the proposal, move to
            // Preprepared, broadcast the Prepare for its digest
            r.0 is Ok ==> (spec_decode_proposal(msg@.payload) matches Some(p) && (final(
                self).current.proposal matches Some(q) && q@ == p) && old(self).state
                is AcceptRequest && final(self).state is Preprepared && r.1@.len() == 1 && (
            r.1@[0] matches Action::BroadcastPrepare { subject } && subject@ == (SubjectModel {
                view: old(self).current.view,
                digest: p.block.digest,
            }))),
            // a rejected proposal may be answered with a RoundChange for the
            // next round, nothing else
            r.1@.len() <= 1,
            (r.1@.len() == 1 && r.1@[0] is BroadcastRoundChange) ==> r.0 == Err::<(),
                ConsensusError,
            >(ConsensusError::InvalidProposal) && (r.1@[0] matches Action::BroadcastRoundChange {
                target,
            } && target == old(self).spec_next_round_view()),
    {
        let proposal = match decode_proposal(&msg.payload) {
            Some(p) => p,
            None => {
                return (Err(ConsensusError::InvalidProposal), Vec::new());
            },
        };
        match self.check_message(MessageType::Preprepare, &proposal.view) {
            MessageCheck::Future => {
                self.buffer_future(msg.clone());
                return (Err(ConsensusError::Future), Vec::new());
            },
            MessageCheck::Stale => {
                return (Err(ConsensusError::Stale), Vec::new());
            },
            MessageCheck::CommitForOld => {
                proof {
                    assert(false);
                }
                return (Err(ConsensusError::Stale), Vec::new());
            },
            MessageCheck::Current => {},
        }
        let auth_ok = match auth {
            Some(a) => a.equals(&msg.sender),
            None => false,
        };
        if !auth_ok {
            return (Err(ConsensusError::BadSignature), Vec::new());
        }
        let expected = self.vals.proposer(self.seed, self.current.view.round);
        if !expected.equals(&msg.sender) {
            return (Err(ConsensusError::WrongProposer), Vec::new());
        }
        if self.current.proposal.is_some() {
            return (Err(ConsensusError::Duplicate), Vec::new());
        }
        let lock_ok = match &self.current.locked_hash {
            Some(d) => d.equals(&proposal.block.digest),
            None => true,
        };
        if !lock_ok || !block_valid {
            let mut actions: Vec<Action> = Vec::new();
            actions.push(Action::BroadcastRoundChange { target: self.next_round_view() });
            return (Err(ConsensusError::InvalidProposal), actions);
        }
        let subject = Subject::new(self.current.view, proposal.block.digest.clone());
        self.current.proposal = Some(proposal);
        self.state = ConsState::Preprepared;
        let mut actions: Vec<Action> = Vec::new();
        actions.push(Action::BroadcastPrepare { subject });
        (Ok(()), actions)
    }

    /// Makes this node's own proposal for the current view (the proposer's
    /// move after its request timer fires, with the block the backend
    /// assembled). A locked node may only re-propose the locked digest.
    /// On success the node records the proposal, moves to `Preprepared`,
    /// and broadcasts the Pre-Prepare followed by its own Prepare.
    pub fn propose(&mut self, block: Block) -> (r: (Result<(), ConsensusError>, Vec<Action>))
        requires
            old(self).wf(),
            block.wf(),
        ensures
            final(self).wf(),
            frame(*old(self), *final(self)),
            final(self).current.view == old(self).current.view,
            final(self).current.prepares == old(self).current.prepares,
            final(self).current.commits == old(self).current.commits,
            final(self).current.locked_hash == old(self).current.locked_hash,
            final(self).round_changes == old(self).round_changes,
            final(self).round_change_count == old(self).round_change_count,
            rank(final(self).state) >= rank(old(self).state),
            !has_finalize(r.1@),
            old(self).current.proposal is Some ==> final(self).current.proposal == old(
                self).current.proposal && final(self).state == old(self).state,
            r.0 is Err ==> *final(self) == *old(self) && r.1@.len() == 0,
            // the proposer may propose exactly once per view, and only the
            // locked digest while locked
            r.0 is Ok <==> (old(self).address@ == old(self).vals@[old(
                self).vals.spec_proposer_index(old(self).seed, old(self).current.view.round)]
                && old(self).current.proposal is None && (match old(self).spec_locked() {
                Some(d) => d == block@.digest,
                None => true,
            })),
            r.0 is Ok ==> (final(self).current.proposal matches Some(q) && q@ == (ProposalModel {
                view: old(self).current.view,
                block: block@,
            }) && old(self).state is AcceptRequest && final(self).state is Preprepared
                && r.1@.len() == 2 && (r.1@[0] matches Action::BroadcastPreprepare { proposal }
                && proposal@ == (ProposalModel { view: old(self).current.view, block: block@ })) && (
            r.1@[1] matches Action::BroadcastPrepare { subject } && subject@ == (SubjectModel {
                view: old(self).current.view,
                digest: block@.digest,
            }))),
    {
        let me = self.vals.proposer(self.seed, self.current.view.round);
        if !me.equals(&self.address) {
            return (Err(ConsensusError::WrongProposer), Vec::new());
        }
        if self.current.proposal.is_some() {
            return (Err(ConsensusError::Duplicate), Vec::new());
        }
        let lock_ok = match &self.current.locked_hash {
            Some(d) => d.equals(&block.digest),
            None => true,
        };
        if !lock_ok {
            return (Err(ConsensusError::InvalidProposal), Vec::new());
        }
        let subject = Subject::new(self.current.view, block.digest.clone());
        let proposal = Proposal::new(self.current.view, block);
        let mut actions: Vec<Action> = Vec::new();
        actions.push(Action::BroadcastPreprepare { proposal: proposal.clone() });
        actions.push(Action::BroadcastPrepare { subject });
        self.current.proposal = Some(proposal);
        self.state = ConsState::Preprepared;
        (Ok(()), actions)
    }
}

} // verus!

verus! {

impl Core {
    /// Handles an inbound RoundChange vote targeting a later round of the
    /// current height. `auth` is the address recovered from the envelope
    /// signature.
    ///
    /// On the `2F+1`-th distinct vote for one target round the node
    /// advances: the view moves to that round, the vote sets and the
    /// proposal are dropped, the locked digest is retained, the round timer
    /// restarts with exponential backoff, and if this node proposes the new
    /// round its request timer is armed. On the `F+1`-th vote for a round
    /// ahead of its own, a lagging node joins by broadcasting its own
    /// RoundChange. A node that already committed ignores round changes.
    pub fn handle_round_change(&mut self, msg: &GossipMessage, auth: &Option<Address>) -> (r: (
        Result<(), ConsensusError>,
        Vec<Action>,
    ))
        requires
            old(self).wf(),
            msg.wf(),
            msg@.kind is RoundChange,
        ensures
            final(self).wf(),
            frame(*old(self), *final(self)),
            !has_finalize(r.1@),
            // the locked digest survives every round change (and everything
            // else here)
            final(self).spec_locked() == old(self).spec_locked(),
            // a node that committed stays committed and unchanged
            old(self).committed() ==> *final(self) == *old(self) && r.1@.len() == 0,
            // the view never moves backwards, and stays within the height
            final(self).current.view == old(self).current.view || (old(
                self).current.view.spec_lt(final(self).current.view) && final(
                self).current.view.height == old(self).current.view.height),
            // advancing resets the phase and drops the per-round state
            final(self).current.view != old(self).current.view ==> final(self).state
                is AcceptRequest && final(self).current.proposal is None && final(
                self).current.prepares@.len() == 0 && final(self).current.commits@.len() == 0
                && final(self).round_change_count as int == (if old(self).round_change_count
                < u64::MAX {
                old(self).round_change_count as int + 1
            } else {
                u64::MAX as int
            }) && r.1@.len() >= 1 && (r.1@[0] matches Action::StartRoundTimer { millis } && millis
                as int == spec_backoff(old(self).config.block_period, final(
                self).round_change_count)),
            // without an advance, nothing but the vote book moves
            final(self).current.view == old(self).current.view ==> final(self).state == old(
                self).state && final(self).current == old(self).current,
            // an error leaves everything untouched
            r.0 is Err ==> final(self).current == old(self).current && final(self).state == old(
                self).state && final(self).round_changes == old(self).round_changes && final(
                self).round_change_count == old(self).round_change_count,
            // the advance happens exactly when this vote completes 2F+1 for
            // its target round, and it reaches that round
            spec_decode_subject(msg@.payload) matches Some(s) ==> ((r.0 is Ok && !old(
                self).committed()) ==> (final(self).current.view != old(self).current.view <==> old(
                self).round_changes.spec_votes(s.view.round).len() + 1 >= 2 * old(
                self).vals.spec_fault_bound() + 1)),
            spec_decode_subject(msg@.payload) matches Some(s) ==> ((r.0 is Ok && !old(
                self).committed() && final(self).current.view != old(self).current.view) ==> final(
                self).current.view.round == s.view.round && final(
                self).round_changes.entries@.len() == 0),
            // short of the advance, an accepted vote is recorded for its round
            spec_decode_subject(msg@.payload) matches Some(s) ==> ((r.0 is Ok && !old(
                self).committed() && final(self).current.view == old(self).current.view) ==> final(
                self).round_changes.spec_votes(s.view.round) == old(self).round_changes.spec_votes(
                s.view.round,
            ).push(msg@)),
            // short of 2F+1, the F+1-th vote for a later round makes this
            // node join the round change, and fewer leave it silent
            spec_decode_subject(msg@.payload) matches Some(s) ==> ((r.0 is Ok && !old(
                self).committed() && final(self).current.view == old(self).current.view) ==> (
            if old(self).round_changes.spec_votes(s.view.round).len() + 1 >= old(
                self).vals.spec_fault_bound() + 1 {
                r.1@.len() == 1 && (r.1@[0] matches Action::BroadcastRoundChange { target }
                    && target == s.view)
            } else {
                r.1@.len() == 0
            })),
            // a vote is owed acceptance exactly when it is authenticated,
            // first from its sender, a validator, and names a later round of
            // this height (a committed node absorbs it without effect)
            r.0 is Ok <==> (spec_decode_subject(msg@.payload) matches Some(s) && (old(
                self).committed() || (s.view.height == old(self).current.view.height && old(
                self).current.view.round < s.view.round && (auth matches Some(a) && a@
                == msg@.sender) && !old(self).round_changes.spec_has_vote_from(
                s.view.round,
                msg@.sender,
            ) && old(self).vals.contains_addr(msg@.sender)))),
    {
        let subject = match decode_subject(&msg.payload) {
            Some(s) => s,
            None => {
                return (Err(ConsensusError::InconsistentSubject), Vec::new());
            },
        };
        let target = subject.view;
        if state_rank(self.state) >= 3 {
            return (Ok(()), Vec::new());
        }
        if self.current.view.height < target.height {
            self.buffer_future(msg.clone());
            return (Err(ConsensusError::Future), Vec::new());
        }
        if target.height < self.current.view.height || target.round <= self.current.view.round {
            return (Err(ConsensusError::Stale), Vec::new());
        }
        let auth_ok = match auth {
            Some(a) => a.equals(&msg.sender),
            None => false,
        };
        if !auth_ok {
            return (Err(ConsensusError::BadSignature), Vec::new());
        }
        let count = match self.round_changes.add_vote(target.round, msg.clone(), &self.vals) {
            Ok(c) => c,
            Err(e) => {
                return (Err(e), Vec::new());
            },
        };
        let threshold = self.vals.round_change_threshold();
        if count >= threshold {
            let locked = match &self.current.locked_hash {
                Some(d) => Some(d.clone()),
                None => None,
            };
            self.current = RoundState {
                view: ViewId { height: self.current.view.height, round: target.round },
                proposal: None,
                locked_hash: locked,
                prepares: MessageSet::new(),
                commits: MessageSet::new(),
            };
            self.state = ConsState::AcceptRequest;
            self.round_changes = RoundChangeSet::new();
            if self.round_change_count < u64::MAX {
                self.round_change_count = self.round_change_count + 1;
            }
            let millis = self.round_timeout_millis();
            let mut actions: Vec<Action> = Vec::new();
            actions.push(Action::StartRoundTimer { millis });
            let me = self.vals.proposer(self.seed, target.round);
            if me.equals(&self.address) {
                actions.push(Action::StartRequestTimer { millis: self.config.request_time });
            }
            return (Ok(()), actions);
        }
        let catch_up = self.vals.catch_up_threshold();
        if count >= catch_up {
            let mut actions: Vec<Action> = Vec::new();
            actions.push(Action::BroadcastRoundChange { target });
            return (Ok(()), actions);
        }
        (Ok(()), Vec::new())
    }

    /// The round timer fired: the round made no progress, so the node asks
    /// for the next round. A late firing after the node committed is
    /// ignored.
    pub fn handle_round_timer(&mut self) -> (r: Vec<Action>)
        requires
            old(self).wf(),
        ensures
            final(self).wf(),
            *final(self) == *old(self),
            !has_finalize(r@),
            old(self).committed() ==> r@.len() == 0,
            !old(self).committed() ==> r@.len() == 1 && (r@[0]
                matches Action::BroadcastRoundChange { target } && target == old(
                self).spec_next_round_view()),
    {
        if state_rank(self.state) >= 3 {
            return Vec::new();
        }
        let target = self.next_round_view();
        let mut actions: Vec<Action> = Vec::new();
        actions.push(Action::BroadcastRoundChange { target });
        actions
    }

    /// Enters a new height: fresh view at round zero, a new seed, the
    /// replacement validator set if membership changed, everything else
    /// cleared -- including the lock, which only a height advance clears.
    /// The request timer is armed at the new proposer only.
    pub fn start_new_height(&mut self, height: u64, seed: u64, new_vals: Option<ValidatorSet>) -> (r:
        Vec<Action>)
        requires
            old(self).wf(),
            match new_vals {
                Some(v) => v.wf(),
                None => true,
            },
        ensures
            final(self).wf(),
            final(self).state is AcceptRequest,
            final(self).current.view == (ViewId { height, round: 0 }),
            final(self).current.proposal is None,
            final(self).current.locked_hash is None,
            final(self).current.prepares@.len() == 0,
            final(self).current.commits@.len() == 0,
            final(self).round_changes.entries@.len() == 0,
            final(self).round_change_count == 0,
            final(self).future@.len() == 0,
            final(self).seed == seed,
            final(self).config == old(self).config,
            final(self).address == old(self).address,
            final(self).vals == (match new_vals {
                Some(v) => v,
                None => old(self).vals,
            }),
            final(self).misbehaviour_book == old(self).misbehaviour_book,
            !has_finalize(r@),
            // the request timer is armed at the proposer only
            final(self).address@ == final(self).vals@[final(self).vals.spec_proposer_index(
                seed,
                0,
            )] ==> r@.len() == 1 && (r@[0] matches Action::StartRequestTimer { millis } && millis
                == old(self).config.request_time),
            final(self).address@ != final(self).vals@[final(self).vals.spec_proposer_index(
                seed,
                0,
            )] ==> r@.len() == 0,
    {
        match new_vals {
            Some(v) => {
                self.vals = v;
            },
            None => {},
        }
        self.seed = seed;
        self.state = ConsState::AcceptRequest;
        self.current = RoundState {
            view: ViewId { height, round: 0 },
            proposal: None,
            locked_hash: None,
            prepares: MessageSet::new(),
            commits: MessageSet::new(),
        };
        self.round_changes = RoundChangeSet::new();
        self.round_change_count = 0;
        self.future = Vec::new();
        let me = self.vals.proposer(self.seed, 0);
        let mut actions: Vec<Action> = Vec::new();
        if me.equals(&self.address) {
            actions.push(Action::StartRequestTimer { millis: self.config.request_time });
        }
        actions
    }
}

} // verus!

verus! {

/// How often one peer sent messages the core rejected.
pub struct MisbehaviourEntry {
    pub addr: Address,
    pub count: u64,
}

/// Per-peer misbehaviour counts. The embedding reports the sender of each
/// rejected message here and reads the count back to throttle persistent
/// offenders; the core itself never disconnects anyone.
pub struct MisbehaviourBook {
    pub entries: Vec<MisbehaviourEntry>,
}

impl MisbehaviourBook {
    pub open spec fn wf(self) -> bool {
        forall|i: int, j: int|
            0 <= i < j < self.entries@.len() ==> (#[trigger] self.entries@[i]).addr@ != (
            #[trigger] self.entries@[j]).addr@
    }

    pub open spec fn spec_has(self, addr: Seq<u8>) -> bool {
        exists|i: int| 0 <= i < self.entries@.len() && (#[trigger] self.entries@[i]).addr@ == addr
    }

    pub open spec fn spec_index(self, addr: Seq<u8>) -> int {
        choose|i: int| 0 <= i < self.entries@.len() && (#[trigger] self.entries@[i]).addr@ == addr
    }

    /// The misbehaviour count recorded against an address.
    pub open spec fn spec_count(self, addr: Seq<u8>) -> int {
        if self.spec_has(addr) {
            self.entries@[self.spec_index(addr)].count as int
        } else {
            0
        }
    }

    pub fn new() -> (b: MisbehaviourBook)
        ensures
            b.wf(),
            b.entries@.len() == 0,
            forall|a: Seq<u8>| #[trigger] b.spec_count(a) == 0,
    {
        MisbehaviourBook { entries: Vec::new() }
    }

    fn find(&self, addr: &Address) -> (r: Option<usize>)
        requires
            self.wf(),
        ensures
            match r {
                Some(i) => i < self.entries@.len() && self.entries@[i as int].addr@ == addr@
                    && self.spec_has(addr@) && self.spec_index(addr@) == i,
                None => !self.spec_has(addr@),
            },
    {
        let n = self.entries.len();
        let mut i: usize = 0;
        while i < n
            invariant
                i <= n,
                n == self.entries@.len(),
                self.wf(),
                forall|j: int| 0 <= j < i ==> (#[trigger] self.entries@[j]).addr@ != addr@,
            decreases n - i,
        {
            if crate::wire::bytes_eq(&self.entries[i].addr.bytes, &addr.bytes) {
                proof {
                    let w = self.spec_index(addr@);
                    assert(0 <= w < self.entries@.len() && self.entries@[w].addr@ == addr@);
                    assert(w == i);
                }
                return Some(i);
            }
            i += 1;
        }
        None
    }

    /// Counts one more rejected message against this sender, saturating at
    /// the integer's maximum; every other sender's count is untouched.
    pub fn note(&mut self, addr: &Address)
        requires
            old(self).wf(),
        ensures
            final(self).wf(),
            final(self).spec_count(addr@) == (if old(self).spec_count(addr@) < u64::MAX {
                old(self).spec_count(addr@) + 1
            } else {
                u64::MAX as int
            }),
            forall|a: Seq<u8>|
                a != addr@ ==> #[trigger] final(self).spec_count(a) == old(self).spec_count(a),
    {
        match self.find(addr) {
            Some(i) => {
                let mut entry = self.entries.remove(i);
                if entry.count < u64::MAX {
                    entry.count = entry.count + 1;
                }
                let ghost new_count = entry.count;
                self.entries.insert(i, entry);
                proof {
                    assert(self.entries@[i as int].addr@ == addr@);
                    let w = self.spec_index(addr@);
                    assert(0 <= w < self.entries@.len() && self.entries@[w].addr@ == addr@);
                    assert(w == i);
                    assert(self.spec_count(addr@) == new_count as int);
                    assert forall|a: Seq<u8>| a != addr@ implies #[trigger] self.spec_count(a)
                        == old(self).spec_count(a) by {
                        assert(forall|j: int|
                            0 <= j < self.entries@.len() && j != i ==> self.entries@[j] == old(
                            self).entries@[j]);
                        if old(self).spec_has(a) {
                            let wo = old(self).spec_index(a);
                            assert(old(self).entries@[wo].addr@ == a && wo != i);
                            assert(self.spec_has(a));
                            let wn = self.spec_index(a);
                            assert(self.entries@[wn].addr@ == a && wn != i);
                            assert(old(self).entries@[wn].addr@ == a);
                            assert(wn == wo);
                        } else {
                            if self.spec_has(a) {
                                let wn = self.spec_index(a);
                                assert(self.entries@[wn].addr@ == a && wn != i);
                                assert(old(self).entries@[wn].addr@ == a);
                                assert(old(self).spec_has(a));
                            }
                        }
                    }
                }
            },
            None => {
                let n = self.entries.len();
                self.entries.push(MisbehaviourEntry { addr: addr.clone(), count: 1 });
                proof {
                    assert(self.entries@[n as int].addr@ == addr@);
                    let w = self.spec_index(addr@);
                    assert(0 <= w < self.entries@.len() && self.entries@[w].addr@ == addr@);
                    assert(forall|j: int|
                        0 <= j < n ==> (#[trigger] self.entries@[j]).addr@ != addr@);
                    assert(w == n);
                    assert(self.spec_count(addr@) == 1);
                    assert forall|a: Seq<u8>| a != addr@ implies #[trigger] self.spec_count(a)
                        == old(self).spec_count(a) by {
                        assert(forall|j: int|
                            0 <= j < n ==> self.entries@[j] == old(self).entries@[j]);
                        if old(self).spec_has(a) {
                            let wo = old(self).spec_index(a);
                            assert(old(self).entries@[wo].addr@ == a);
                            assert(self.entries@[wo].addr@ == a);
                            assert(self.spec_has(a));
                            let wn = self.spec_index(a);
                            assert(self.entries@[wn].addr@ == a && wn != n);
                            assert(wn == wo);
                        } else {
                            if self.spec_has(a) {
                                let wn = self.spec_index(a);
                                assert(self.entries@[wn].addr@ == a);
                                assert(wn != n);
                                assert(old(self).entries@[wn].addr@ == a);
                                assert(old(self).spec_has(a));
                            }
                        }
                    }
                }
            },
        }
    }

    /// The count recorded against this sender.
    pub fn count_of(&self, addr: &Address) -> (r: u64)
        requires
            self.wf(),
        ensures
            r as int == self.spec_count(addr@),
    {
        match self.find(addr) {
            Some(i) => self.entries[i].count,
            None => 0,
        }
    }
}

impl Core {
    /// Counts a rejected message against its sender. The embedding calls
    /// this with the sender of each message a handler refused; nothing else
    /// of the core moves.
    pub fn note_misbehaviour(&mut self, addr: &Address)
        requires
            old(self).wf(),
        ensures
            final(self).wf(),
            final(self).state == old(self).state,
            final(self).current == old(self).current,
            final(self).config == old(self).config,
            final(self).address == old(self).address,
            final(self).vals == old(self).vals,
            final(self).seed == old(self).seed,
            final(self).round_changes == old(self).round_changes,
            final(self).round_change_count == old(self).round_change_count,
            final(self).future == old(self).future,
            final(self).misbehaviour_book.spec_count(addr@) == (if old(self).misbehaviour_book.spec_count(
                addr@,
            ) < u64::MAX {
                old(self).misbehaviour_book.spec_count(addr@) + 1
            } else {
                u64::MAX as int
            }),
            forall|a: Seq<u8>|
                a != addr@ ==> #[trigger] final(self).misbehaviour_book.spec_count(a) == old(
                    self).misbehaviour_book.spec_count(a),
    {
        self.misbehaviour_book.note(addr);
    }

    /// How often this sender's messages were rejected; the transport reads
    /// it to throttle persistent offenders.
    pub fn misbehaviour(&self, addr: &Address) -> (r: u64)
        requires
            self.wf(),
        ensures
            r as int == self.misbehaviour_book.spec_count(addr@),
    {
        self.misbehaviour_book.count_of(addr)
    }
}

} // verus!
