//! Data model of the consensus core: views, digests, addresses, signatures,
//! blocks, subjects, proposals and gossip messages, each with a ghost model
//! (its view) that the contracts speak of.

use vstd::prelude::*;

use crate::wire::bytes_eq;

verus! {

/// Width in bytes of a block digest on the wire.
pub const DIGEST_LEN: usize = 32;

/// Width in bytes of a validator address on the wire.
pub const ADDRESS_LEN: usize = 20;

/// Width in bytes of a signature on the wire (r, s and the recovery byte).
pub const SIGNATURE_LEN: usize = 65;

/// The four kinds of gossip message of the protocol.
#[derive(Clone, Copy, PartialEq, Eq, Structural, Debug)]
pub enum MessageType {
    Preprepare,
    Prepare,
    Commit,
    RoundChange,
}

/// A consensus position: height of the chain and round within that height,
/// ordered lexicographically.
#[derive(Clone, Copy, PartialEq, Eq, Structural, Debug)]
pub struct ViewId {
    pub height: u64,
    pub round: u64,
}

impl ViewId {
    /// Strict lexicographic order on (height, round).
    pub open spec fn spec_lt(self, other: ViewId) -> bool {
        self.height < other.height || (self.height == other.height && self.round < other.round)
    }

    pub fn new(height: u64, round: u64) -> (v: ViewId)
        ensures
            v == (ViewId { height, round }),
    {
        ViewId { height, round }
    }

    /// True exactly when `self` comes before `other`.
    pub fn is_before(&self, other: &ViewId) -> (r: bool)
        ensures
            r == self.spec_lt(*other),
    {
        self.height < other.height || (self.height == other.height && self.round < other.round)
    }

    pub fn equals(&self, other: &ViewId) -> (r: bool)
        ensures
            r == (*self == *other),
    {
        self.height == other.height && self.round == other.round
    }
}

/// The lexicographic order on views is total: exactly one of `a < b`,
/// `a == b`, `b < a` holds.
pub proof fn lemma_view_order_total(a: ViewId, b: ViewId)
    ensures
        a.spec_lt(b) || a == b || b.spec_lt(a),
        a.spec_lt(b) ==> !(b.spec_lt(a)) && a != b,
{
}

/// A 32-byte hash identifying a proposed block.
pub struct Digest {
    pub bytes: Vec<u8>,
}

impl View for Digest {
    type V = Seq<u8>;

    open spec fn view(&self) -> Seq<u8> {
        self.bytes@
    }
}

impl Digest {
    pub open spec fn wf(self) -> bool {
        self@.len() == DIGEST_LEN
    }

    pub fn new(bytes: Vec<u8>) -> (d: Digest)
        requires
            bytes@.len() == DIGEST_LEN,
        ensures
            d.wf(),
            d@ == bytes@,
    {
        Digest { bytes }
    }

    pub fn equals(&self, other: &Digest) -> (r: bool)
        ensures
            r == (self@ == other@),
    {
        bytes_eq(&self.bytes, &other.bytes)
    }
}

impl Clone for Digest {
    fn clone(&self) -> (c: Self)
        ensures
            c@ == self@,
    {
        Digest { bytes: self.bytes.clone() }
    }
}

/// A 20-byte validator address, derived from a public key.
pub struct Address {
    pub bytes: Vec<u8>,
}

impl View for Address {
    type V = Seq<u8>;

    open spec fn view(&self) -> Seq<u8> {
        self.bytes@
    }
}

impl Address {
    pub open spec fn wf(self) -> bool {
        self@.len() == ADDRESS_LEN
    }

    pub fn new(bytes: Vec<u8>) -> (a: Address)
        requires
            bytes@.len() == ADDRESS_LEN,
        ensures
            a.wf(),
            a@ == bytes@,
    {
        Address { bytes }
    }

    pub fn equals(&self, other: &Address) -> (r: bool)
        ensures
            r == (self@ == other@),
    {
        bytes_eq(&self.bytes, &other.bytes)
    }
}

impl Clone for Address {
    fn clone(&self) -> (c: Self)
        ensures
            c@ == self@,
    {
        Address { bytes: self.bytes.clone() }
    }
}

/// A 65-byte signature.
pub struct Signature {
    pub bytes: Vec<u8>,
}

impl View for Signature {
    type V = Seq<u8>;

    open spec fn view(&self) -> Seq<u8> {
        self.bytes@
    }
}

impl Signature {
    pub open spec fn wf(self) -> bool {
        self@.len() == SIGNATURE_LEN
    }

    pub fn new(bytes: Vec<u8>) -> (s: Signature)
        requires
            bytes@.len() == SIGNATURE_LEN,
        ensures
            s.wf(),
            s@ == bytes@,
    {
        Signature { bytes }
    }
}

impl Clone for Signature {
    fn clone(&self) -> (c: Self)
        ensures
            c@ == self@,
    {
        Signature { bytes: self.bytes.clone() }
    }
}

/// Ghost model of a block: its digest bytes and its body bytes.
#[verifier::ext_equal]
pub struct BlockModel {
    pub digest: Seq<u8>,
    pub payload: Seq<u8>,
}

/// A candidate block: the digest of its header and the body bytes. The
/// digest is computed by the collaborator that assembles the block; the
/// core only carries and compares it.
pub struct Block {
    pub digest: Digest,
    pub payload: Vec<u8>,
}

impl View for Block {
    type V = BlockModel;

    open spec fn view(&self) -> BlockModel {
        BlockModel { digest: self.digest@, payload: self.payload@ }
    }
}

impl Block {
    pub open spec fn wf(self) -> bool {
        self.digest.wf()
    }

    pub fn new(digest: Digest, payload: Vec<u8>) -> (b: Block)
        requires
            digest.wf(),
        ensures
            b.wf(),
            b@ == (BlockModel { digest: digest@, payload: payload@ }),
    {
        Block { digest, payload }
    }
}

impl Clone for Block {
    fn clone(&self) -> (c: Self)
        ensures
            c@ == self@,
    {
        Block { digest: self.digest.clone(), payload: self.payload.clone() }
    }
}

/// Ghost model of a subject.
#[verifier::ext_equal]
pub struct SubjectModel {
    pub view: ViewId,
    pub digest: Seq<u8>,
}

/// The identity of the item under vote: a view and the digest of the block
/// proposed there. Every Prepare and Commit carries one.
pub struct Subject {
    pub view: ViewId,
    pub digest: Digest,
}

impl View for Subject {
    type V = SubjectModel;

    open spec fn view(&self) -> SubjectModel {
        SubjectModel { view: self.view, digest: self.digest@ }
    }
}

impl Subject {
    pub open spec fn wf(self) -> bool {
        self.digest.wf()
    }

    pub fn new(view: ViewId, digest: Digest) -> (s: Subject)
        requires
            digest.wf(),
        ensures
            s.wf(),
            s@ == (SubjectModel { view, digest: digest@ }),
    {
        Subject { view, digest }
    }

    pub fn equals(&self, other: &Subject) -> (r: bool)
        ensures
            r == (self@ == other@),
    {
        self.view.equals(&other.view) && self.digest.equals(&other.digest)
    }
}

impl Clone for Subject {
    fn clone(&self) -> (c: Self)
        ensures
            c@ == self@,
    {
        Subject { view: self.view, digest: self.digest.clone() }
    }
}

/// Ghost model of a proposal.
#[verifier::ext_equal]
pub struct ProposalModel {
    pub view: ViewId,
    pub block: BlockModel,
}

/// A proposal: a view and the block put forward there. Carried only by
/// Pre-Prepare messages.
pub struct Proposal {
    pub view: ViewId,
    pub block: Block,
}

impl View for Proposal {
    type V = ProposalModel;

    open spec fn view(&self) -> ProposalModel {
        ProposalModel { view: self.view, block: self.block@ }
    }
}

impl Proposal {
    pub open spec fn wf(self) -> bool {
        self.block.wf()
    }

    pub fn new(view: ViewId, block: Block) -> (p: Proposal)
        requires
            block.wf(),
        ensures
            p.wf(),
            p@ == (ProposalModel { view, block: block@ }),
    {
        Proposal { view, block }
    }
}

impl Clone for Proposal {
    fn clone(&self) -> (c: Self)
        ensures
            c@ == self@,
    {
        Proposal { view: self.view, block: self.block.clone() }
    }
}

/// Ghost model of a gossip message.
#[verifier::ext_equal]
pub struct GossipModel {
    pub kind: MessageType,
    pub payload: Seq<u8>,
    pub sender: Seq<u8>,
    pub signature: Seq<u8>,
    pub commit_seal: Option<Seq<u8>>,
}

impl GossipModel {
    /// Well-formedness of a message: field widths as the wire format fixes
    /// them, and a commit seal present exactly on Commit messages.
    pub open spec fn wf(self) -> bool {
        &&& self.sender.len() == ADDRESS_LEN
        &&& self.signature.len() == SIGNATURE_LEN
        &&& self.payload.len() <= u64::MAX
        &&& match self.commit_seal {
            Some(seal) => self.kind is Commit && seal.len() == SIGNATURE_LEN,
            None => !(self.kind is Commit),
        }
    }
}

/// A signed gossip message: the kind, the canonical encoding of a proposal
/// or subject as payload, the sender's address, the envelope signature, and
/// on Commit messages the commit seal (a signature over the digest alone).
pub struct GossipMessage {
    pub kind: MessageType,
    pub payload: Vec<u8>,
    pub sender: Address,
    pub signature: Signature,
    pub commit_seal: Option<Signature>,
}

impl View for GossipMessage {
    type V = GossipModel;

    open spec fn view(&self) -> GossipModel {
        GossipModel {
            kind: self.kind,
            payload: self.payload@,
            sender: self.sender@,
            signature: self.signature@,
            commit_seal: match self.commit_seal {
                Some(seal) => Some(seal@),
                None => None,
            },
        }
    }
}

impl GossipMessage {
    pub open spec fn wf(self) -> bool {
        self@.wf()
    }

    pub fn new(
        kind: MessageType,
        payload: Vec<u8>,
        sender: Address,
        signature: Signature,
        commit_seal: Option<Signature>,
    ) -> (m: GossipMessage)
        requires
            sender.wf(),
            signature.wf(),
            match commit_seal {
                Some(seal) => kind is Commit && seal.wf(),
                None => !(kind is Commit),
            },
        ensures
            m.wf(),
            m@.kind == kind,
            m@.payload == payload@,
            m@.sender == sender@,
            m@.signature == signature@,
            m@.commit_seal == match commit_seal {
                Some(seal) => Some(seal@),
                None => None::<Seq<u8>>,
            },
    {
        let n: usize = payload.len();
        proof {
            assert(payload@.len() == n && n <= u64::MAX);
        }
        GossipMessage { kind, payload, sender, signature, commit_seal }
    }
}

impl Clone for GossipMessage {
    fn clone(&self) -> (c: Self)
        ensures
            c@ == self@,
    {
        GossipMessage {
            kind: self.kind,
            payload: self.payload.clone(),
            sender: self.sender.clone(),
            signature: self.signature.clone(),
            commit_seal: match &self.commit_seal {
                Some(seal) => Some(seal.clone()),
                None => None,
            },
        }
    }
}

} // verus!
