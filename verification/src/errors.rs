//! Failure taxonomy of the relay core.
//!
//! Conversion failures, chain-query failures, the distinguished
//! missing-predecessor condition, submission rejection and vote-check
//! failures are kept apart so that a caller can tell which boundary failed.

use vstd::prelude::*;
use crate::ChainEpoch;

verus! {

/// A tagged failure of the relay core.
#[derive(Debug, PartialEq, Eq)]
pub enum Error {
    /// An address of a kind that has no runtime-B representation.
    UnsupportedProtocol { protocol: u8 },
    /// A byte payload that does not carry what its protocol tag promises.
    InvalidPayload,
    /// An amount that is not a decimal numeral or needs more than 256 bits.
    InvalidAmount,
    /// A content-identifier string that does not parse.
    InvalidCid,
    /// A subnet status tag outside the known range.
    InvalidStatus { status: u8 },
    /// A transport or RPC failure on either chain.
    ChainQuery,
    /// The checkpoint expected at `epoch` is not committed on the parent.
    NotFound { epoch: ChainEpoch },
    /// The parent chain refused the submitted transaction.
    SubmissionRejected,
    /// The duplicate-submission status could not be evaluated; carries the
    /// query failure underneath.
    VoteCheck { epoch: ChainEpoch, cause: Box<Error> },
}

/// The step of the submission protocol at which a failure arose.
#[derive(Debug, Clone, Copy, PartialEq, Eq, Structural)]
pub enum Stage {
    Template,
    Proof,
    PrevHash,
    Submit,
}

/// A submission failure annotated with the stage that produced it.
#[derive(Debug, PartialEq, Eq)]
pub struct SubmitError {
    pub stage: Stage,
    pub cause: Error,
}

} // verus!
