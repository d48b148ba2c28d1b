//! What can go wrong in a backing job.
use vstd::prelude::*;

use crate::primitives::H256;

verus! {

/// The reasons for which a job or the subsystem gives up.
#[derive(Debug, PartialEq, Eq)]
pub enum Error {
    /// The statement table does not hold the candidate.
    CandidateNotFound,
    /// There is no job on the block.
    JobNotFound(H256),
    /// The signature does not match the statement.
    InvalidSignature,
    /// The data could not be erasure coded.
    Erasure(String),
    /// The candidate could not be validated.
    ValidationFailed(String),
    /// The other side has dropped the channel of an answer.
    Oneshot,
    /// The other side does not take messages any more.
    Mpsc,
    /// A job could not be spawned.
    Spawn,
    /// A request to the runtime has failed, or this node is not a validator.
    UtilError(String),
}

} // verus!
