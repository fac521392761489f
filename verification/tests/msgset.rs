use bft_core::codec::encode_subject;
use bft_core::errors::ConsensusError;
use bft_core::msgset::MessageSet;
use bft_core::types::{Address, Digest, GossipMessage, MessageType, Signature, Subject, ViewId};
use bft_core::validator::ValidatorSet;

fn address(fill: u8) -> Address {
    Address::new(vec![fill; 20])
}

fn vote(sender: u8) -> GossipMessage {
    let subject = Subject::new(ViewId::new(1, 0), Digest::new(vec![0x5a; 32]));
    GossipMessage::new(
        MessageType::Prepare,
        encode_subject(&subject),
        address(sender),
        Signature::new(vec![sender; 65]),
        None,
    )
}

fn set_of(n: u8) -> ValidatorSet {
    ValidatorSet::new((0..n).map(address).collect())
}

#[test]
fn one_vote_per_sender() {
    let vals = set_of(4);
    let mut set = MessageSet::new();
    assert!(set.add(vote(1), &vals).is_ok());
    assert_eq!(set.len(), 1);
    // the same sender is refused, the count stays
    assert_eq!(set.add(vote(1), &vals), Err(ConsensusError::Duplicate));
    assert_eq!(set.len(), 1);
    assert!(set.add(vote(2), &vals).is_ok());
    assert_eq!(set.len(), 2);
}

#[test]
fn unknown_sender_is_refused() {
    let vals = set_of(4);
    let mut set = MessageSet::new();
    assert_eq!(set.add(vote(7), &vals), Err(ConsensusError::UnknownSender));
    assert_eq!(set.len(), 0);
    assert!(!set.contains(&vec![7u8; 20]));
}

#[test]
fn values_keep_insertion_order() {
    let vals = set_of(4);
    let mut set = MessageSet::new();
    for sender in [2u8, 0u8, 3u8] {
        set.add(vote(sender), &vals).unwrap();
    }
    let values = set.values();
    assert_eq!(values.len(), 3);
    assert_eq!(values[0].sender.bytes, vec![2u8; 20]);
    assert_eq!(values[1].sender.bytes, vec![0u8; 20]);
    assert_eq!(values[2].sender.bytes, vec![3u8; 20]);
    assert!(set.contains(&vec![0u8; 20]));
    assert!(!set.contains(&vec![1u8; 20]));
    assert_eq!(set.get(1).sender.bytes, vec![0u8; 20]);
}
