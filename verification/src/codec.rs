//! Canonical wire codec. A `Subject` encodes as `height .. round .. digest`,
//! a `Proposal` as `height .. round .. block bytes`, and a gossip message as
//! `type .. len(payload) .. payload .. sender .. signature` followed, on
//! Commit messages only, by `len(seal) .. seal`. Integers are 8-byte
//! big-endian; decoding the encoding of a well-formed value yields the value
//! again, which makes the encoding canonical and injective.

use vstd::prelude::*;

use crate::types::{
    Address, Block, BlockModel, Digest, GossipMessage, GossipModel, MessageType, Proposal,
    ProposalModel, Signature, Subject, SubjectModel, ViewId, ADDRESS_LEN, DIGEST_LEN,
    SIGNATURE_LEN,
};
use crate::wire::{
    bytes_slice, extend_bytes, lemma_u64_be_round_trip, spec_u64_be, spec_u64_from_be, u64_from_be_at,
    u64_to_be,
};

verus! {

/// The wire tag of each message kind.
pub open spec fn type_byte(t: MessageType) -> u8 {
    match t {
        MessageType::Preprepare => 0,
        MessageType::Prepare => 1,
        MessageType::Commit => 2,
        MessageType::RoundChange => 3,
    }
}

/// The message kind read back from a wire tag.
pub open spec fn spec_type_of_byte(x: u8) -> Option<MessageType> {
    if x == 0 {
        Some(MessageType::Preprepare)
    } else if x == 1 {
        Some(MessageType::Prepare)
    } else if x == 2 {
        Some(MessageType::Commit)
    } else if x == 3 {
        Some(MessageType::RoundChange)
    } else {
        None
    }
}

pub proof fn lemma_type_byte_round_trip(t: MessageType)
    ensures
        spec_type_of_byte(type_byte(t)) == Some(t),
{
}

// ---------------------------------------------------------------- Subject

pub open spec fn spec_encode_subject(s: SubjectModel) -> Seq<u8> {
    spec_u64_be(s.view.height) + spec_u64_be(s.view.round) + s.digest
}

pub open spec fn spec_decode_subject(b: Seq<u8>) -> Option<SubjectModel> {
    if b.len() == 16 + DIGEST_LEN {
        Some(
            SubjectModel {
                view: ViewId {
                    height: spec_u64_from_be(b.subrange(0, 8)),
                    round: spec_u64_from_be(b.subrange(8, 16)),
                },
                digest: b.subrange(16, 16 + DIGEST_LEN as int),
            },
        )
    } else {
        None
    }
}

/// Round trip: decoding the encoding of a well-formed subject yields the
/// subject again.
pub proof fn lemma_subject_round_trip(s: SubjectModel)
    requires
        s.digest.len() == DIGEST_LEN,
    ensures
        spec_decode_subject(spec_encode_subject(s)) == Some(s),
{
    let e = spec_encode_subject(s);
    assert(e.subrange(0, 8) =~= spec_u64_be(s.view.height));
    assert(e.subrange(8, 16) =~= spec_u64_be(s.view.round));
    assert(e.subrange(16, 16 + DIGEST_LEN as int) =~= s.digest);
    lemma_u64_be_round_trip(s.view.height);
    lemma_u64_be_round_trip(s.view.round);
    assert(spec_decode_subject(e) =~= Some(s));
}

pub fn encode_subject(s: &Subject) -> (r: Vec<u8>)
    requires
        s.wf(),
    ensures
        r@ == spec_encode_subject(s@),
{
    let mut out = u64_to_be(s.view.height);
    let round_bytes = u64_to_be(s.view.round);
    extend_bytes(&mut out, &round_bytes);
    extend_bytes(&mut out, &s.digest.bytes);
    out
}

pub fn decode_subject(b: &Vec<u8>) -> (r: Option<Subject>)
    ensures
        match r {
            Some(s) => Some(s@) == spec_decode_subject(b@) && s.wf(),
            None => spec_decode_subject(b@) is None,
        },
{
    if b.len() != 16 + DIGEST_LEN {
        return None;
    }
    let height = u64_from_be_at(b, 0);
    let round = u64_from_be_at(b, 8);
    let digest_bytes = bytes_slice(b, 16, DIGEST_LEN);
    let s = Subject { view: ViewId { height, round }, digest: Digest { bytes: digest_bytes } };
    proof {
        assert(Some(s@) =~= spec_decode_subject(b@));
    }
    Some(s)
}

// --------------------------------------------------------------- Proposal

pub open spec fn spec_encode_proposal(p: ProposalModel) -> Seq<u8> {
    spec_u64_be(p.view.height) + spec_u64_be(p.view.round) + p.block.digest + p.block.payload
}

pub open spec fn spec_decode_proposal(b: Seq<u8>) -> Option<ProposalModel> {
    if b.len() >= 16 + DIGEST_LEN {
        Some(
            ProposalModel {
                view: ViewId {
                    height: spec_u64_from_be(b.subrange(0, 8)),
                    round: spec_u64_from_be(b.subrange(8, 16)),
                },
                block: BlockModel {
                    digest: b.subrange(16, 16 + DIGEST_LEN as int),
                    payload: b.subrange(16 + DIGEST_LEN as int, b.len() as int),
                },
            },
        )
    } else {
        None
    }
}

/// Round trip: decoding the encoding of a well-formed proposal yields the
/// proposal again.
pub proof fn lemma_proposal_round_trip(p: ProposalModel)
    requires
        p.block.digest.len() == DIGEST_LEN,
    ensures
        spec_decode_proposal(spec_encode_proposal(p)) == Some(p),
{
    let e = spec_encode_proposal(p);
    assert(e.subrange(0, 8) =~= spec_u64_be(p.view.height));
    assert(e.subrange(8, 16) =~= spec_u64_be(p.view.round));
    assert(e.subrange(16, 16 + DIGEST_LEN as int) =~= p.block.digest);
    assert(e.subrange(16 + DIGEST_LEN as int, e.len() as int) =~= p.block.payload);
    lemma_u64_be_round_trip(p.view.height);
    lemma_u64_be_round_trip(p.view.round);
    assert(spec_decode_proposal(e) =~= Some(p));
}

pub fn encode_proposal(p: &Proposal) -> (r: Vec<u8>)
    requires
        p.wf(),
    ensures
        r@ == spec_encode_proposal(p@),
{
    let mut out = u64_to_be(p.view.height);
    let round_bytes = u64_to_be(p.view.round);
    extend_bytes(&mut out, &round_bytes);
    extend_bytes(&mut out, &p.block.digest.bytes);
    extend_bytes(&mut out, &p.block.payload);
    out
}

pub fn decode_proposal(b: &Vec<u8>) -> (r: Option<Proposal>)
    ensures
        match r {
            Some(p) => Some(p@) == spec_decode_proposal(b@) && p.wf(),
            None => spec_decode_proposal(b@) is None,
        },
{
    if b.len() < 16 + DIGEST_LEN {
        return None;
    }
    let height = u64_from_be_at(b, 0);
    let round = u64_from_be_at(b, 8);
    let digest_bytes = bytes_slice(b, 16, DIGEST_LEN);
    let payload = bytes_slice(b, 16 + DIGEST_LEN, b.len() - (16 + DIGEST_LEN));
    let p = Proposal {
        view: ViewId { height, round },
        block: Block { digest: Digest { bytes: digest_bytes }, payload },
    };
    proof {
        assert(Some(p@) =~= spec_decode_proposal(b@));
    }
    Some(p)
}

// ----------------------------------------------------------- GossipMessage

/// Canonical encoding of a gossip message.
pub open spec fn spec_encode_gossip(m: GossipModel) -> Seq<u8> {
    seq![type_byte(m.kind)] + spec_u64_be(m.payload.len() as u64) + m.payload + m.sender
        + m.signature + (match m.commit_seal {
        Some(seal) => spec_u64_be(SIGNATURE_LEN as u64) + seal,
        None => Seq::<u8>::empty(),
    })
}

/// Total decoder of the gossip wire format; `None` on malformed bytes.
pub open spec fn spec_decode_gossip(b: Seq<u8>) -> Option<GossipModel> {
    if b.len() < 9 {
        None
    } else {
        match spec_type_of_byte(b[0]) {
            None => None,
            Some(t) => {
                let plen = spec_u64_from_be(b.subrange(1, 9)) as int;
                let p0 = 9 + plen;
                if t is Commit {
                    if b.len() == p0 + ADDRESS_LEN + SIGNATURE_LEN + 8 + SIGNATURE_LEN
                        && spec_u64_from_be(
                        b.subrange(p0 + ADDRESS_LEN + SIGNATURE_LEN, p0 + ADDRESS_LEN
                            + SIGNATURE_LEN + 8),
                    ) == SIGNATURE_LEN {
                        Some(
                            GossipModel {
                                kind: t,
                                payload: b.subrange(9, p0),
                                sender: b.subrange(p0, p0 + ADDRESS_LEN as int),
                                signature: b.subrange(p0 + ADDRESS_LEN as int, p0 + ADDRESS_LEN
                                    + SIGNATURE_LEN),
                                commit_seal: Some(
                                    b.subrange(p0 + ADDRESS_LEN + SIGNATURE_LEN + 8, p0
                                        + ADDRESS_LEN + SIGNATURE_LEN + 8 + SIGNATURE_LEN),
                                ),
                            },
                        )
                    } else {
                        None
                    }
                } else {
                    if b.len() == p0 + ADDRESS_LEN + SIGNATURE_LEN {
                        Some(
                            GossipModel {
                                kind: t,
                                payload: b.subrange(9, p0),
                                sender: b.subrange(p0, p0 + ADDRESS_LEN as int),
                                signature: b.subrange(p0 + ADDRESS_LEN as int, p0 + ADDRESS_LEN
                                    + SIGNATURE_LEN),
                                commit_seal: None,
                            },
                        )
                    } else {
                        None
                    }
                }
            },
        }
    }
}

/// Whatever the decoder accepts is a well-formed message.
pub proof fn lemma_decode_gossip_wf(b: Seq<u8>)
    ensures
        match spec_decode_gossip(b) {
            Some(m) => m.wf(),
            None => true,
        },
{
}

/// Round trip: decoding the canonical encoding of a well-formed gossip
/// message yields the message again, for every message type.
pub proof fn lemma_gossip_round_trip(m: GossipModel)
    requires
        m.wf(),
    ensures
        spec_decode_gossip(spec_encode_gossip(m)) == Some(m),
{
    let e = spec_encode_gossip(m);
    let plen = m.payload.len() as int;
    let p0 = 9 + plen;
    lemma_type_byte_round_trip(m.kind);
    assert(e[0] == type_byte(m.kind));
    assert(e.subrange(1, 9) =~= spec_u64_be(m.payload.len() as u64));
    lemma_u64_be_round_trip(m.payload.len() as u64);
    assert(e.subrange(9, p0) =~= m.payload);
    assert(e.subrange(p0, p0 + ADDRESS_LEN as int) =~= m.sender);
    assert(e.subrange(p0 + ADDRESS_LEN as int, p0 + ADDRESS_LEN + SIGNATURE_LEN) =~= m.signature);
    match m.commit_seal {
        Some(seal) => {
            assert(e.subrange(p0 + ADDRESS_LEN + SIGNATURE_LEN, p0 + ADDRESS_LEN + SIGNATURE_LEN
                + 8) =~= spec_u64_be(SIGNATURE_LEN as u64));
            lemma_u64_be_round_trip(SIGNATURE_LEN as u64);
            assert(e.subrange(p0 + ADDRESS_LEN + SIGNATURE_LEN + 8, p0 + ADDRESS_LEN
                + SIGNATURE_LEN + 8 + SIGNATURE_LEN) =~= seal);
            assert(spec_decode_gossip(e) =~= Some(m));
        },
        None => {
            assert(spec_decode_gossip(e) =~= Some(m));
        },
    }
}

/// The canonical encoding is injective on well-formed messages: equal
/// encodings come only from equal messages.
pub proof fn lemma_gossip_encode_injective(m1: GossipModel, m2: GossipModel)
    requires
        m1.wf(),
        m2.wf(),
        spec_encode_gossip(m1) == spec_encode_gossip(m2),
    ensures
        m1 == m2,
{
    lemma_gossip_round_trip(m1);
    lemma_gossip_round_trip(m2);
}

pub fn encode_gossip(m: &GossipMessage) -> (r: Vec<u8>)
    requires
        m.wf(),
    ensures
        r@ == spec_encode_gossip(m@),
{
    let mut out: Vec<u8> = Vec::new();
    let tag: u8 = match m.kind {
        MessageType::Preprepare => 0,
        MessageType::Prepare => 1,
        MessageType::Commit => 2,
        MessageType::RoundChange => 3,
    };
    out.push(tag);
    let len_bytes = u64_to_be(m.payload.len() as u64);
    extend_bytes(&mut out, &len_bytes);
    extend_bytes(&mut out, &m.payload);
    extend_bytes(&mut out, &m.sender.bytes);
    extend_bytes(&mut out, &m.signature.bytes);
    match &m.commit_seal {
        Some(seal) => {
            let seal_len_bytes = u64_to_be(SIGNATURE_LEN as u64);
            extend_bytes(&mut out, &seal_len_bytes);
            extend_bytes(&mut out, &seal.bytes);
        },
        None => {},
    }
    proof {
        assert(out@ =~= spec_encode_gossip(m@));
    }
    out
}

pub fn decode_gossip(b: &Vec<u8>) -> (r: Option<GossipMessage>)
    ensures
        match r {
            Some(m) => Some(m@) == spec_decode_gossip(b@) && m.wf(),
            None => spec_decode_gossip(b@) is None,
        },
{
    let n = b.len();
    if n < 9 + ADDRESS_LEN + SIGNATURE_LEN {
        proof {
            assert(spec_decode_gossip(b@) is None);
        }
        return None;
    }
    let kind = match b[0] {
        0 => MessageType::Preprepare,
        1 => MessageType::Prepare,
        2 => MessageType::Commit,
        3 => MessageType::RoundChange,
        _ => {
            return None;
        },
    };
    proof {
        assert(spec_type_of_byte(b@[0]) == Some(kind));
    }
    let plen_u64 = u64_from_be_at(b, 1);
    if let MessageType::Commit = kind {
        let fixed = 9 + ADDRESS_LEN + SIGNATURE_LEN + 8 + SIGNATURE_LEN;
        if n < fixed || plen_u64 != (n - fixed) as u64 {
            return None;
        }
        let plen = n - fixed;
        let p0 = 9 + plen;
        let seal_len = u64_from_be_at(b, p0 + ADDRESS_LEN + SIGNATURE_LEN);
        if seal_len != SIGNATURE_LEN as u64 {
            return None;
        }
        let payload = bytes_slice(b, 9, plen);
        let sender = bytes_slice(b, p0, ADDRESS_LEN);
        let signature = bytes_slice(b, p0 + ADDRESS_LEN, SIGNATURE_LEN);
        let seal = bytes_slice(b, p0 + ADDRESS_LEN + SIGNATURE_LEN + 8, SIGNATURE_LEN);
        let m = GossipMessage {
            kind,
            payload,
            sender: Address { bytes: sender },
            signature: Signature { bytes: signature },
            commit_seal: Some(Signature { bytes: seal }),
        };
        proof {
            assert(Some(m@) =~= spec_decode_gossip(b@));
        }
        Some(m)
    } else {
        let fixed = 9 + ADDRESS_LEN + SIGNATURE_LEN;
        if plen_u64 != (n - fixed) as u64 {
            return None;
        }
        let plen = n - fixed;
        let p0 = 9 + plen;
        let payload = bytes_slice(b, 9, plen);
        let sender = bytes_slice(b, p0, ADDRESS_LEN);
        let signature = bytes_slice(b, p0 + ADDRESS_LEN, SIGNATURE_LEN);
        let m = GossipMessage {
            kind,
            payload,
            sender: Address { bytes: sender },
            signature: Signature { bytes: signature },
            commit_seal: None,
        };
        proof {
            assert(Some(m@) =~= spec_decode_gossip(b@));
        }
        Some(m)
    }
}

} // verus!

verus! {

/// The bytes a sender signs: the canonical encoding up to and excluding the
/// signature and commit-seal fields.
pub open spec fn spec_signing_prefix(m: GossipModel) -> Seq<u8> {
    seq![type_byte(m.kind)] + spec_u64_be(m.payload.len() as u64) + m.payload + m.sender
}

/// The signed prefix is exactly the encoding with the signature and the
/// seal section cut off.
pub proof fn lemma_signing_prefix_is_encoding_prefix(m: GossipModel)
    requires
        m.wf(),
    ensures
        spec_signing_prefix(m) == spec_encode_gossip(m).subrange(
            0,
            spec_signing_prefix(m).len() as int,
        ),
{
    assert(spec_signing_prefix(m) =~= spec_encode_gossip(m).subrange(
        0,
        spec_signing_prefix(m).len() as int,
    ));
}

pub fn signing_prefix(m: &GossipMessage) -> (r: Vec<u8>)
    requires
        m.wf(),
    ensures
        r@ == spec_signing_prefix(m@),
{
    let mut out: Vec<u8> = Vec::new();
    let tag: u8 = match m.kind {
        MessageType::Preprepare => 0,
        MessageType::Prepare => 1,
        MessageType::Commit => 2,
        MessageType::RoundChange => 3,
    };
    out.push(tag);
    let len_bytes = u64_to_be(m.payload.len() as u64);
    extend_bytes(&mut out, &len_bytes);
    extend_bytes(&mut out, &m.payload);
    extend_bytes(&mut out, &m.sender.bytes);
    proof {
        assert(out@ =~= spec_signing_prefix(m@));
    }
    out
}

} // verus!
