//! Error kinds of the consensus core. All of them are local: the offending
//! message is dropped and none is fatal.

use vstd::prelude::*;

verus! {

#[derive(Clone, Copy, PartialEq, Eq, Structural, Debug)]
pub enum ConsensusError {
    /// The sender address could not be recovered from the envelope signature.
    BadSignature,
    /// The sender is not a member of the validator set.
    UnknownSender,
    /// The message's view lies behind the current view.
    Stale,
    /// The message's view lies ahead of the current view; it was buffered.
    Future,
    /// The sender already contributed a vote for this phase.
    Duplicate,
    /// The message's subject differs from the current proposal's subject.
    InconsistentSubject,
    /// A Commit message arrived without a commit seal.
    MissingSeal,
    /// The commit seal does not recover to the message's sender.
    SealSenderMismatch,
    /// The proposed block failed validation, or contradicts the locked hash.
    InvalidProposal,
    /// The Pre-Prepare did not come from the proposer of the current view.
    WrongProposer,
}

} // verus!
