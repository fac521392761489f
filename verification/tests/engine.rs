use bft_core::codec::encode_subject;
use bft_core::config::Config;
use bft_core::engine::{Action, ConsState, Core, MessageCheck};
use bft_core::errors::ConsensusError;
use bft_core::types::{
    Address, Block, Digest, GossipMessage, MessageType, Signature, Subject, ViewId,
};
use bft_core::validator::ValidatorSet;

fn digest(fill: u8) -> Digest {
    Digest::new(vec![fill; 32])
}

fn address(fill: u8) -> Address {
    Address::new(vec![fill; 20])
}

fn signature(fill: u8) -> Signature {
    Signature::new(vec![fill; 65])
}

fn set_of(n: u8) -> ValidatorSet {
    ValidatorSet::new((0..n).map(address).collect())
}

fn core_at(n: u8, me: u8, height: u64) -> Core {
    Core::new(Config::new(500, 1000), address(me), set_of(n), 0, height)
}

fn prepare_msg(view: ViewId, d: &Digest, sender: u8) -> GossipMessage {
    let subject = Subject::new(view, d.clone());
    GossipMessage::new(
        MessageType::Prepare,
        encode_subject(&subject),
        address(sender),
        signature(sender),
        None,
    )
}

fn commit_msg(view: ViewId, d: &Digest, sender: u8) -> GossipMessage {
    let subject = Subject::new(view, d.clone());
    GossipMessage::new(
        MessageType::Commit,
        encode_subject(&subject),
        address(sender),
        signature(sender),
        Some(signature(sender)),
    )
}

fn round_change_msg(target: ViewId, d: &Digest, sender: u8) -> GossipMessage {
    let subject = Subject::new(target, d.clone());
    GossipMessage::new(
        MessageType::RoundChange,
        encode_subject(&subject),
        address(sender),
        signature(sender),
        None,
    )
}

fn finalize_count(actions: &[Action]) -> usize {
    actions.iter().filter(|a| matches!(a, Action::Finalize { .. })).count()
}

#[test]
fn happy_path_four_validators() {
    // proposer 0 at height 1 drives a full round with votes from 1 and 2
    let mut core = core_at(4, 0, 1);
    let d1 = digest(0xd1);
    let view = ViewId::new(1, 0);

    let (res, actions) = core.propose(Block::new(d1.clone(), vec![1, 2, 3]));
    assert!(res.is_ok());
    assert_eq!(actions.len(), 2);
    assert!(matches!(actions[0], Action::BroadcastPreprepare { .. }));
    assert!(matches!(actions[1], Action::BroadcastPrepare { .. }));
    assert!(matches!(core.state, ConsState::Preprepared));

    // own Prepare comes back, then one more: 2 votes + the proposal >= 3
    let m0 = prepare_msg(view, &d1, 0);
    let (r0, a0) = core.handle_prepare(&m0, &Some(address(0)));
    assert!(r0.is_ok());
    // the fresh vote is passed on to the other validators
    assert_eq!(a0.len(), 1);
    assert!(matches!(a0[0], Action::Rebroadcast { .. }));
    assert!(matches!(core.state, ConsState::Preprepared));

    let m1 = prepare_msg(view, &d1, 1);
    let (r1, a1) = core.handle_prepare(&m1, &Some(address(1)));
    assert!(r1.is_ok());
    assert_eq!(a1.len(), 2);
    assert!(matches!(a1[0], Action::Rebroadcast { .. }));
    assert!(matches!(a1[1], Action::BroadcastCommit { .. }));
    assert!(matches!(core.state, ConsState::Prepared));
    assert!(core.current.locked_hash.as_ref().unwrap().equals(&d1));

    // two commits do not finalize, the third does, with three seals
    let c0 = commit_msg(view, &d1, 0);
    let (cr0, ca0) = core.handle_commit(&c0, &Some(address(0)), &Some(address(0)));
    assert!(cr0.is_ok());
    assert_eq!(finalize_count(&ca0), 0);
    let c1 = commit_msg(view, &d1, 1);
    let (cr1, ca1) = core.handle_commit(&c1, &Some(address(1)), &Some(address(1)));
    assert!(cr1.is_ok());
    assert_eq!(finalize_count(&ca1), 0);
    assert!(matches!(core.state, ConsState::Prepared));

    let c2 = commit_msg(view, &d1, 2);
    let (cr2, ca2) = core.handle_commit(&c2, &Some(address(2)), &Some(address(2)));
    assert!(cr2.is_ok());
    assert_eq!(finalize_count(&ca2), 1);
    assert!(matches!(core.state, ConsState::Committed));
    match &ca2[1] {
        Action::Finalize { block, seals } => {
            assert!(block.digest.equals(&d1));
            assert_eq!(seals.len(), 3);
            assert_eq!(seals[0].bytes, vec![0u8; 65]);
            assert_eq!(seals[1].bytes, vec![1u8; 65]);
            assert_eq!(seals[2].bytes, vec![2u8; 65]);
        },
        _ => panic!("expected a finalize action"),
    }

    // a late fourth commit is collected but finalizes nothing more
    let c3 = commit_msg(view, &d1, 3);
    let (cr3, ca3) = core.handle_commit(&c3, &Some(address(3)), &Some(address(3)));
    assert!(cr3.is_ok());
    assert_eq!(finalize_count(&ca3), 0);
}

#[test]
fn single_validator_finalizes_after_self_commit() {
    // with N = 1 the quorum is 1: the proposer finalizes right after its
    // own Commit comes back
    let mut core = core_at(1, 0, 1);
    let d = digest(0x77);
    let view = ViewId::new(1, 0);
    let (res, _) = core.propose(Block::new(d.clone(), Vec::new()));
    assert!(res.is_ok());

    let m = prepare_msg(view, &d, 0);
    let (r, a) = core.handle_prepare(&m, &Some(address(0)));
    assert!(r.is_ok());
    assert_eq!(a.len(), 2);
    assert!(matches!(a[0], Action::Rebroadcast { .. }));
    assert!(matches!(a[1], Action::BroadcastCommit { .. }));
    assert!(matches!(core.state, ConsState::Prepared));

    let c = commit_msg(view, &d, 0);
    let (cr, ca) = core.handle_commit(&c, &Some(address(0)), &Some(address(0)));
    assert!(cr.is_ok());
    assert_eq!(finalize_count(&ca), 1);
    assert!(matches!(core.state, ConsState::Committed));
}

#[test]
fn duplicate_prepare_counts_once() {
    let mut core = core_at(4, 0, 1);
    let d = digest(0x10);
    let view = ViewId::new(1, 0);
    core.propose(Block::new(d.clone(), Vec::new())).0.unwrap();

    let m = prepare_msg(view, &d, 1);
    let (r1, _) = core.handle_prepare(&m, &Some(address(1)));
    assert!(r1.is_ok());
    assert_eq!(core.current.prepares.len(), 1);
    // the repeat is swallowed without effect
    let (r2, a2) = core.handle_prepare(&m, &Some(address(1)));
    assert!(r2.is_ok());
    assert!(a2.is_empty());
    assert_eq!(core.current.prepares.len(), 1);
}

#[test]
fn duplicate_commit_is_an_error() {
    let mut core = core_at(4, 0, 1);
    let d = digest(0x10);
    let view = ViewId::new(1, 0);
    core.propose(Block::new(d.clone(), Vec::new())).0.unwrap();

    let c = commit_msg(view, &d, 1);
    let (r1, _) = core.handle_commit(&c, &Some(address(1)), &Some(address(1)));
    assert!(r1.is_ok());
    let (r2, _) = core.handle_commit(&c, &Some(address(1)), &Some(address(1)));
    assert_eq!(r2, Err(ConsensusError::Duplicate));
    assert_eq!(core.current.commits.len(), 1);
}

#[test]
fn commit_with_wrong_digest_is_inconsistent() {
    let mut core = core_at(4, 0, 1);
    let d = digest(0x10);
    let other = digest(0x20);
    let view = ViewId::new(1, 0);
    core.propose(Block::new(d, Vec::new())).0.unwrap();

    let c = commit_msg(view, &other, 2);
    let (r, a) = core.handle_commit(&c, &Some(address(2)), &Some(address(2)));
    assert_eq!(r, Err(ConsensusError::InconsistentSubject));
    assert!(a.is_empty());
    assert_eq!(core.current.commits.len(), 0);
}

#[test]
fn forged_seal_is_rejected() {
    // the seal recovers to someone other than the sender
    let mut core = core_at(4, 0, 1);
    let d = digest(0x10);
    let view = ViewId::new(1, 0);
    core.propose(Block::new(d.clone(), Vec::new())).0.unwrap();

    let c = commit_msg(view, &d, 2);
    let (r, _) = core.handle_commit(&c, &Some(address(2)), &Some(address(3)));
    assert_eq!(r, Err(ConsensusError::SealSenderMismatch));
    assert_eq!(core.current.commits.len(), 0);
}

#[test]
fn missing_seal_is_rejected() {
    let mut core = core_at(4, 0, 1);
    let d = digest(0x10);
    core.propose(Block::new(d.clone(), Vec::new())).0.unwrap();
    let subject = Subject::new(ViewId::new(1, 0), d);
    let r = core.verify_commit(&None, &subject, &address(2), &Some(address(2)));
    assert_eq!(r, Err(ConsensusError::MissingSeal));
}

#[test]
fn unauthenticated_messages_are_rejected() {
    let mut core = core_at(4, 0, 1);
    let d = digest(0x10);
    let view = ViewId::new(1, 0);
    core.propose(Block::new(d.clone(), Vec::new())).0.unwrap();

    let m = prepare_msg(view, &d, 1);
    // no recovered address at all
    let (r1, _) = core.handle_prepare(&m, &None);
    assert_eq!(r1, Err(ConsensusError::BadSignature));
    // recovered address differing from the claimed sender
    let (r2, _) = core.handle_prepare(&m, &Some(address(2)));
    assert_eq!(r2, Err(ConsensusError::BadSignature));
    // sender outside the validator set
    let stranger = prepare_msg(view, &d, 9);
    let (r3, _) = core.handle_prepare(&stranger, &Some(address(9)));
    assert_eq!(r3, Err(ConsensusError::UnknownSender));
}

#[test]
fn stale_message_changes_nothing() {
    let mut core = core_at(4, 0, 5);
    let d = digest(0x10);
    core.propose(Block::new(d.clone(), Vec::new())).0.unwrap();

    // a prepare for an older height is dropped
    let m = prepare_msg(ViewId::new(3, 0), &d, 1);
    let (r, a) = core.handle_prepare(&m, &Some(address(1)));
    assert_eq!(r, Err(ConsensusError::Stale));
    assert!(a.is_empty());
    assert_eq!(core.current.prepares.len(), 0);
    assert!(matches!(core.state, ConsState::Preprepared));
}

#[test]
fn future_message_is_buffered() {
    let mut core = core_at(4, 0, 1);
    let d = digest(0x10);
    let m = prepare_msg(ViewId::new(2, 0), &d, 1);
    let (r, _) = core.handle_prepare(&m, &Some(address(1)));
    assert_eq!(r, Err(ConsensusError::Future));
    let buffered = core.drain_future();
    assert_eq!(buffered.len(), 1);
    assert_eq!(buffered[0].payload, m.payload);
    assert_eq!(core.drain_future().len(), 0);
}

#[test]
fn commit_for_prior_height_is_answered() {
    let mut core = core_at(4, 0, 2);
    let d = digest(0x55);
    let old_view = ViewId::new(1, 0);
    let c = commit_msg(old_view, &d, 1);
    let (r, a) = core.handle_commit(&c, &Some(address(1)), &Some(address(1)));
    assert!(r.is_ok());
    assert_eq!(a.len(), 1);
    match &a[0] {
        Action::BroadcastCommit { subject } => {
            assert_eq!(subject.view.height, 1);
            assert!(subject.digest.equals(&d));
        },
        _ => panic!("expected a commit broadcast"),
    }
    // nothing of the current round moved
    assert_eq!(core.current.commits.len(), 0);
    assert!(matches!(core.state, ConsState::AcceptRequest));
}

#[test]
fn check_message_classification() {
    let core = core_at(4, 0, 5);
    let cur = ViewId::new(5, 0);
    assert_eq!(core.check_message(MessageType::Prepare, &cur), MessageCheck::Current);
    assert_eq!(
        core.check_message(MessageType::Prepare, &ViewId::new(5, 1)),
        MessageCheck::Future
    );
    assert_eq!(
        core.check_message(MessageType::Prepare, &ViewId::new(6, 0)),
        MessageCheck::Future
    );
    assert_eq!(core.check_message(MessageType::Prepare, &ViewId::new(4, 7)), MessageCheck::Stale);
    assert_eq!(
        core.check_message(MessageType::Commit, &ViewId::new(4, 7)),
        MessageCheck::CommitForOld
    );
    assert_eq!(core.check_message(MessageType::Commit, &ViewId::new(3, 0)), MessageCheck::Stale);
}

#[test]
fn round_change_advances_view_after_quorum() {
    // proposer 0 stays silent; 1, 2 and 3 ask for round 1
    let mut core = core_at(4, 1, 1);
    let timer_actions = core.handle_round_timer();
    assert_eq!(timer_actions.len(), 1);
    match &timer_actions[0] {
        Action::BroadcastRoundChange { target } => {
            assert_eq!(target.height, 1);
            assert_eq!(target.round, 1);
        },
        _ => panic!("expected a round change broadcast"),
    }

    let target = ViewId::new(1, 1);
    let d = digest(0);
    let (r1, a1) = core.handle_round_change(&round_change_msg(target, &d, 1), &Some(address(1)));
    assert!(r1.is_ok());
    assert!(a1.is_empty());
    // the second vote reaches F + 1 = 2: the node would join in
    let (r2, a2) = core.handle_round_change(&round_change_msg(target, &d, 2), &Some(address(2)));
    assert!(r2.is_ok());
    assert_eq!(a2.len(), 1);
    assert!(matches!(a2[0], Action::BroadcastRoundChange { .. }));
    assert_eq!(core.current.view.round, 0);
    // the third vote reaches 2F + 1 = 3: the view advances
    let (r3, a3) = core.handle_round_change(&round_change_msg(target, &d, 3), &Some(address(3)));
    assert!(r3.is_ok());
    assert_eq!(core.current.view, ViewId::new(1, 1));
    assert!(matches!(core.state, ConsState::AcceptRequest));
    // backoff after one round change: block_period * 2
    match &a3[0] {
        Action::StartRoundTimer { millis } => assert_eq!(*millis, 2000),
        _ => panic!("expected a round timer"),
    }
    // the new proposer is validator 1, this node: its request timer is armed
    assert_eq!(a3.len(), 2);
    match &a3[1] {
        Action::StartRequestTimer { millis } => assert_eq!(*millis, 500),
        _ => panic!("expected a request timer"),
    }
}

#[test]
fn lock_survives_round_change_and_blocks_other_digests() {
    // the node reaches Prepared on d1, the round changes, and the new
    // proposer offers d2: the node refuses and asks for another round
    let mut core = core_at(4, 3, 1);
    let d1 = digest(0xd1);
    let view = ViewId::new(1, 0);

    // proposer 0's pre-prepare with d1, then a prepare quorum
    let p = bft_core::types::Proposal::new(view, Block::new(d1.clone(), vec![7]));
    let pre = GossipMessage::new(
        MessageType::Preprepare,
        bft_core::codec::encode_proposal(&p),
        address(0),
        signature(0),
        None,
    );
    let (pr, pa) = core.handle_preprepare(&pre, &Some(address(0)), true);
    assert!(pr.is_ok());
    assert_eq!(pa.len(), 1);
    assert!(matches!(pa[0], Action::BroadcastPrepare { .. }));

    for sender in [0u8, 1u8] {
        let m = prepare_msg(view, &d1, sender);
        core.handle_prepare(&m, &Some(address(sender))).0.unwrap();
    }
    assert!(matches!(core.state, ConsState::Prepared));
    assert!(core.current.locked_hash.as_ref().unwrap().equals(&d1));

    // round change to round 1
    let target = ViewId::new(1, 1);
    for sender in [0u8, 1u8, 2u8] {
        core.handle_round_change(&round_change_msg(target, &d1, sender), &Some(address(sender)))
            .0
            .unwrap();
    }
    assert_eq!(core.current.view.round, 1);
    // the lock survived
    assert!(core.current.locked_hash.as_ref().unwrap().equals(&d1));

    // proposer of round 1 is validator 1; it offers d2 instead of d1
    let d2 = digest(0xd2);
    let p2 = bft_core::types::Proposal::new(target, Block::new(d2, vec![8]));
    let pre2 = GossipMessage::new(
        MessageType::Preprepare,
        bft_core::codec::encode_proposal(&p2),
        address(1),
        signature(1),
        None,
    );
    let (r2, a2) = core.handle_preprepare(&pre2, &Some(address(1)), true);
    assert_eq!(r2, Err(ConsensusError::InvalidProposal));
    assert_eq!(a2.len(), 1);
    assert!(matches!(a2[0], Action::BroadcastRoundChange { .. }));
    assert!(core.current.proposal.is_none());

    // the locked digest itself is accepted
    let p3 = bft_core::types::Proposal::new(target, Block::new(d1.clone(), vec![7]));
    let pre3 = GossipMessage::new(
        MessageType::Preprepare,
        bft_core::codec::encode_proposal(&p3),
        address(1),
        signature(1),
        None,
    );
    let (r3, _) = core.handle_preprepare(&pre3, &Some(address(1)), true);
    assert!(r3.is_ok());
    assert!(matches!(core.state, ConsState::Preprepared));
}

#[test]
fn wrong_proposer_and_invalid_block_are_rejected() {
    let mut core = core_at(4, 3, 1);
    let d = digest(0x42);
    let view = ViewId::new(1, 0);
    let p = bft_core::types::Proposal::new(view, Block::new(d.clone(), Vec::new()));
    let payload = bft_core::codec::encode_proposal(&p);

    // validator 2 is not the proposer of round 0
    let wrong = GossipMessage::new(
        MessageType::Preprepare,
        payload.clone(),
        address(2),
        signature(2),
        None,
    );
    let (r1, _) = core.handle_preprepare(&wrong, &Some(address(2)), true);
    assert_eq!(r1, Err(ConsensusError::WrongProposer));

    // the right proposer, but the backend refuses the block
    let right =
        GossipMessage::new(MessageType::Preprepare, payload, address(0), signature(0), None);
    let (r2, a2) = core.handle_preprepare(&right, &Some(address(0)), false);
    assert_eq!(r2, Err(ConsensusError::InvalidProposal));
    assert_eq!(a2.len(), 1);
    assert!(matches!(a2[0], Action::BroadcastRoundChange { .. }));
    assert!(core.current.proposal.is_none());
}

#[test]
fn exponential_backoff() {
    let mut core = core_at(4, 0, 1);
    assert_eq!(core.round_timeout_millis(), 1000);
    core.round_change_count = 1;
    assert_eq!(core.round_timeout_millis(), 2000);
    core.round_change_count = 5;
    assert_eq!(core.round_timeout_millis(), 32000);
    core.round_change_count = 10;
    assert_eq!(core.round_timeout_millis(), 1024000);
    // saturation instead of overflow
    core.config = Config::new(500, u64::MAX);
    core.round_change_count = 1;
    assert_eq!(core.round_timeout_millis(), u64::MAX);
    core.config = Config::new(500, 0);
    assert_eq!(core.round_timeout_millis(), 0);
    core.config = Config::new(500, 1);
    core.round_change_count = 64;
    assert_eq!(core.round_timeout_millis(), u64::MAX);
}

#[test]
fn new_height_resets_and_arms_proposer() {
    let mut core = core_at(4, 0, 1);
    let d = digest(0x99);
    core.propose(Block::new(d, Vec::new())).0.unwrap();
    assert!(core.current.proposal.is_some());

    // validator 0 proposes height 2 as well under seed 0
    let actions = core.start_new_height(2, 0, None);
    assert_eq!(core.current.view, ViewId::new(2, 0));
    assert!(matches!(core.state, ConsState::AcceptRequest));
    assert!(core.current.proposal.is_none());
    assert!(core.current.locked_hash.is_none());
    assert_eq!(core.current.prepares.len(), 0);
    assert_eq!(core.current.commits.len(), 0);
    assert_eq!(actions.len(), 1);
    assert!(matches!(actions[0], Action::StartRequestTimer { millis: 500 }));

    // under seed 1 the proposer is validator 1: no timer here
    let actions2 = core.start_new_height(3, 1, None);
    assert!(actions2.is_empty());
}

#[test]
fn send_commit_builds_the_current_subject() {
    let mut core = core_at(4, 0, 1);
    let d = digest(0x31);
    core.propose(Block::new(d.clone(), Vec::new())).0.unwrap();
    let actions = core.send_commit();
    assert_eq!(actions.len(), 1);
    match &actions[0] {
        Action::BroadcastCommit { subject } => {
            assert_eq!(subject.view, ViewId::new(1, 0));
            assert!(subject.digest.equals(&d));
        },
        _ => panic!("expected a commit broadcast"),
    }
}

#[test]
fn committed_node_ignores_round_changes_and_timers() {
    let mut core = core_at(1, 0, 1);
    let d = digest(0x66);
    let view = ViewId::new(1, 0);
    core.propose(Block::new(d.clone(), Vec::new())).0.unwrap();
    core.handle_prepare(&prepare_msg(view, &d, 0), &Some(address(0))).0.unwrap();
    core.handle_commit(&commit_msg(view, &d, 0), &Some(address(0)), &Some(address(0)))
        .0
        .unwrap();
    assert!(matches!(core.state, ConsState::Committed));

    assert!(core.handle_round_timer().is_empty());
    let (r, a) = core.handle_round_change(
        &round_change_msg(ViewId::new(1, 1), &d, 0),
        &Some(address(0)),
    );
    assert!(r.is_ok());
    assert!(a.is_empty());
    assert!(matches!(core.state, ConsState::Committed));

    core.set_final_committed();
    assert!(matches!(core.state, ConsState::FinalCommitted));
}

#[test]
fn future_buffer_is_bounded_and_evicts_oldest() {
    // N = 1 bounds the buffer at four entries
    let mut core = core_at(1, 0, 1);
    let d = digest(0x10);
    for round in 1..=5u64 {
        let m = prepare_msg(ViewId::new(2, round), &d, 0);
        let (r, _) = core.handle_prepare(&m, &Some(address(0)));
        assert_eq!(r, Err(ConsensusError::Future));
    }
    let buffered = core.drain_future();
    assert_eq!(buffered.len(), 4);
    // the oldest entry (round 1) was evicted
    let first = bft_core::codec::decode_subject(&buffered[0].payload).unwrap();
    assert_eq!(first.view.round, 2);
    let last = bft_core::codec::decode_subject(&buffered[3].payload).unwrap();
    assert_eq!(last.view.round, 5);
}

#[test]
fn misbehaviour_counts_per_sender() {
    let mut core = core_at(4, 0, 1);
    assert_eq!(core.misbehaviour(&address(2)), 0);
    core.note_misbehaviour(&address(2));
    core.note_misbehaviour(&address(2));
    core.note_misbehaviour(&address(3));
    assert_eq!(core.misbehaviour(&address(2)), 2);
    assert_eq!(core.misbehaviour(&address(3)), 1);
    assert_eq!(core.misbehaviour(&address(0)), 0);
}

#[test]
fn new_vote_is_rebroadcast_verbatim() {
    let mut core = core_at(4, 0, 1);
    let d = digest(0x21);
    let view = ViewId::new(1, 0);
    core.propose(Block::new(d.clone(), Vec::new())).0.unwrap();

    let m = prepare_msg(view, &d, 2);
    let (r, a) = core.handle_prepare(&m, &Some(address(2)));
    assert!(r.is_ok());
    assert_eq!(a.len(), 1);
    match &a[0] {
        Action::Rebroadcast { message } => {
            assert_eq!(message.payload, m.payload);
            assert_eq!(message.sender.bytes, m.sender.bytes);
        },
        _ => panic!("expected the vote to be passed on"),
    }
    // a repeat is not passed on again
    let (_, a2) = core.handle_prepare(&m, &Some(address(2)));
    assert!(a2.is_empty());
}
