use bft_core::codec::{
    decode_gossip, decode_proposal, decode_subject, encode_gossip, encode_proposal, encode_subject,
};
use bft_core::types::{
    Address, Block, Digest, GossipMessage, MessageType, Proposal, Signature, Subject, ViewId,
};

fn digest(fill: u8) -> Digest {
    Digest::new(vec![fill; 32])
}

fn address(fill: u8) -> Address {
    Address::new(vec![fill; 20])
}

fn signature(fill: u8) -> Signature {
    Signature::new(vec![fill; 65])
}

#[test]
fn subject_round_trip() {
    let s = Subject::new(ViewId::new(7, 2), digest(0xab));
    let bytes = encode_subject(&s);
    assert_eq!(bytes.len(), 48);
    let d = decode_subject(&bytes).expect("decodes");
    assert_eq!(d.view.height, 7);
    assert_eq!(d.view.round, 2);
    assert!(d.digest.equals(&digest(0xab)));
}

#[test]
fn subject_encoding_is_big_endian() {
    let s = Subject::new(ViewId::new(1, 256), digest(0));
    let bytes = encode_subject(&s);
    assert_eq!(&bytes[0..8], &[0, 0, 0, 0, 0, 0, 0, 1]);
    assert_eq!(&bytes[8..16], &[0, 0, 0, 0, 0, 0, 1, 0]);
}

#[test]
fn subject_decode_refuses_wrong_length() {
    assert!(decode_subject(&vec![0u8; 47]).is_none());
    assert!(decode_subject(&vec![0u8; 49]).is_none());
    assert!(decode_subject(&Vec::new()).is_none());
}

#[test]
fn proposal_round_trip() {
    let block = Block::new(digest(0x11), vec![1, 2, 3, 4, 5]);
    let p = Proposal::new(ViewId::new(3, 0), block);
    let bytes = encode_proposal(&p);
    let d = decode_proposal(&bytes).expect("decodes");
    assert_eq!(d.view.height, 3);
    assert_eq!(d.view.round, 0);
    assert!(d.block.digest.equals(&digest(0x11)));
    assert_eq!(d.block.payload, vec![1, 2, 3, 4, 5]);
}

#[test]
fn proposal_with_empty_block_body_round_trips() {
    let p = Proposal::new(ViewId::new(0, 0), Block::new(digest(0), Vec::new()));
    let bytes = encode_proposal(&p);
    assert_eq!(bytes.len(), 48);
    let d = decode_proposal(&bytes).expect("decodes");
    assert!(d.block.payload.is_empty());
}

#[test]
fn gossip_round_trip_prepare() {
    let subject = Subject::new(ViewId::new(1, 0), digest(0x22));
    let m = GossipMessage::new(
        MessageType::Prepare,
        encode_subject(&subject),
        address(0xaa),
        signature(0xbb),
        None,
    );
    let bytes = encode_gossip(&m);
    let d = decode_gossip(&bytes).expect("decodes");
    assert!(matches!(d.kind, MessageType::Prepare));
    assert_eq!(d.payload, m.payload);
    assert!(d.sender.equals(&address(0xaa)));
    assert!(d.commit_seal.is_none());
}

#[test]
fn gossip_round_trip_commit_with_seal() {
    let subject = Subject::new(ViewId::new(9, 4), digest(0x33));
    let m = GossipMessage::new(
        MessageType::Commit,
        encode_subject(&subject),
        address(0x01),
        signature(0x02),
        Some(signature(0x03)),
    );
    let bytes = encode_gossip(&m);
    let d = decode_gossip(&bytes).expect("decodes");
    assert!(matches!(d.kind, MessageType::Commit));
    let seal = d.commit_seal.expect("has seal");
    assert_eq!(seal.bytes, vec![0x03; 65]);
}

#[test]
fn gossip_round_trip_preprepare_and_round_change() {
    let p = Proposal::new(ViewId::new(2, 1), Block::new(digest(0x44), vec![9, 9]));
    let m1 = GossipMessage::new(
        MessageType::Preprepare,
        encode_proposal(&p),
        address(0x05),
        signature(0x06),
        None,
    );
    let d1 = decode_gossip(&encode_gossip(&m1)).expect("decodes");
    assert!(matches!(d1.kind, MessageType::Preprepare));
    assert_eq!(d1.payload, m1.payload);

    let subject = Subject::new(ViewId::new(2, 2), digest(0x44));
    let m2 = GossipMessage::new(
        MessageType::RoundChange,
        encode_subject(&subject),
        address(0x07),
        signature(0x08),
        None,
    );
    let d2 = decode_gossip(&encode_gossip(&m2)).expect("decodes");
    assert!(matches!(d2.kind, MessageType::RoundChange));
}

#[test]
fn gossip_decode_refuses_malformed() {
    // too short for the fixed sections
    assert!(decode_gossip(&vec![0u8; 93]).is_none());
    // unknown message tag
    let subject = Subject::new(ViewId::new(1, 0), digest(0));
    let m = GossipMessage::new(
        MessageType::Prepare,
        encode_subject(&subject),
        address(1),
        signature(2),
        None,
    );
    let mut bytes = encode_gossip(&m);
    bytes[0] = 9;
    assert!(decode_gossip(&bytes).is_none());
    // length prefix disagreeing with the byte count
    let mut bytes2 = encode_gossip(&m);
    bytes2[8] = bytes2[8].wrapping_add(1);
    assert!(decode_gossip(&bytes2).is_none());
    // a trailing byte
    let mut bytes3 = encode_gossip(&m);
    bytes3.push(0);
    assert!(decode_gossip(&bytes3).is_none());
}

#[test]
fn signing_prefix_cuts_signature_and_seal() {
    let subject = Subject::new(ViewId::new(1, 0), digest(0x22));
    let m = GossipMessage::new(
        MessageType::Commit,
        bft_core::codec::encode_subject(&subject),
        address(0xaa),
        signature(0xbb),
        Some(signature(0xcc)),
    );
    let prefix = bft_core::codec::signing_prefix(&m);
    let full = encode_gossip(&m);
    assert_eq!(prefix.len(), 1 + 8 + 48 + 20);
    assert_eq!(&full[..prefix.len()], &prefix[..]);
}
