//! The messages that a backing job takes and sends.
//!
//! A message that asks for an answer stands here without its answer channel: the host attaches the
//! channel when it sends the message.
use std::sync::Arc;

use vstd::prelude::*;

use crate::bits::ValidatorIndices;
use crate::primitives::{
    AbridgedCandidateReceipt, ErasureChunk, H256, HeadData, MisbehaviorReport, ParaId, PoVBlock,
    SignedFullStatement, ValidatorIndex, ValidityAttestation,
};

verus! {

/// The host's name for the channel on which a watcher of backed candidates listens.
pub type WatcherId = u64;

/// What other parts of the node ask of the backing subsystem.
#[derive(Debug, PartialEq, Eq)]
pub enum CandidateBackingMessage {
    /// Validate the candidate, and second it if it is valid.
    Second(H256, Arc<AbridgedCandidateReceipt>, Arc<PoVBlock>),
    /// Take note of the statement of another validator.
    Statement(H256, SignedFullStatement),
    /// Hand the candidates that are backed by now to the watcher.
    RegisterBackingWatcher(H256, WatcherId),
}

impl CandidateBackingMessage {
    /// The relay chain block that the message is about.
    pub open spec fn spec_relay_parent(self) -> H256 {
        match self {
            CandidateBackingMessage::Second(hash, _, _) => hash,
            CandidateBackingMessage::Statement(hash, _) => hash,
            CandidateBackingMessage::RegisterBackingWatcher(hash, _) => hash,
        }
    }

    /// The relay chain block that the message is about.
    pub fn relay_parent(&self) -> (hash: H256)
        ensures
            hash == self.spec_relay_parent(),
    {
        match self {
            CandidateBackingMessage::Second(hash, _, _) => *hash,
            CandidateBackingMessage::Statement(hash, _) => *hash,
            CandidateBackingMessage::RegisterBackingWatcher(hash, _) => *hash,
        }
    }
}

/// A message from the subsystem to one of its jobs.
#[derive(Debug, PartialEq, Eq)]
pub enum ToJob {
    /// A message that was sent to the subsystem.
    CandidateBacking(CandidateBackingMessage),
    /// Stop working.
    Stop,
}

/// A request to the availability store.
#[derive(Debug, PartialEq, Eq)]
pub enum AvailabilityStoreMessage {
    /// Keep the chunk of the validator.
    StoreChunk(H256, ValidatorIndex, ErasureChunk),
}

/// What can be asked of the runtime.
#[derive(Debug, PartialEq, Eq)]
pub enum RuntimeApiRequest {
    /// The validator set.
    Validators,
    /// The validator groups, and the parachains that they are scheduled on.
    ValidatorGroups,
    /// The context of the signatures of this session.
    SigningContext,
    /// The head of a parachain.
    HeadData(ParaId),
}

/// A request to the runtime, in the state of a block.
#[derive(Debug, PartialEq, Eq)]
pub enum RuntimeApiMessage {
    Request(H256, RuntimeApiRequest),
}

/// A request to the candidate validation subsystem.
#[derive(Debug, PartialEq, Eq)]
pub enum CandidateValidationMessage {
    Validate(H256, Arc<AbridgedCandidateReceipt>, Arc<HeadData>, Arc<PoVBlock>),
}

/// A notice to the candidate selection subsystem.
#[derive(Debug, PartialEq, Eq)]
pub enum CandidateSelectionMessage {
    /// The candidate that was asked to be seconded is invalid.
    Invalid(H256, Arc<AbridgedCandidateReceipt>),
}

/// What a block author can take into a block.
#[derive(Debug, PartialEq, Eq)]
pub enum ProvisionableData {
    MisbehaviorReport(H256, MisbehaviorReport),
}

/// A message to the provisioner.
#[derive(Debug, PartialEq, Eq)]
pub enum ProvisionerMessage {
    ProvisionableData(ProvisionableData),
}

/// A request to the distribution of proofs of validity. The receipt describes the proof.
#[derive(Debug, PartialEq, Eq)]
pub enum PoVDistributionMessage {
    FetchPoV(H256, Arc<AbridgedCandidateReceipt>),
}

/// A message to the statement distribution.
#[derive(Debug, PartialEq, Eq)]
pub enum StatementDistributionMessage {
    /// Spread a statement of our own.
    Share(H256, SignedFullStatement),
}

/// A message from a job to the rest of the node.
#[derive(Debug, PartialEq, Eq)]
pub enum FromJob {
    AvailabilityStore(AvailabilityStoreMessage),
    RuntimeApiMessage(RuntimeApiMessage),
    CandidateValidation(CandidateValidationMessage),
    CandidateSelection(CandidateSelectionMessage),
    Provisioner(ProvisionerMessage),
    PoVDistribution(PoVDistributionMessage),
    StatementDistribution(StatementDistributionMessage),
}

/// A message between any two parts of the node.
#[derive(Debug, PartialEq, Eq)]
pub enum AllMessages {
    AvailabilityStore(AvailabilityStoreMessage),
    RuntimeApi(RuntimeApiMessage),
    CandidateValidation(CandidateValidationMessage),
    CandidateSelection(CandidateSelectionMessage),
    Provisioner(ProvisionerMessage),
    PoVDistribution(PoVDistributionMessage),
    StatementDistribution(StatementDistributionMessage),
    /// A message of a kind that no backing job sends.
    Other,
}

impl From<FromJob> for AllMessages {
    fn from(f: FromJob) -> (message: Self) {
        match f {
            FromJob::AvailabilityStore(msg) => AllMessages::AvailabilityStore(msg),
            FromJob::RuntimeApiMessage(msg) => AllMessages::RuntimeApi(msg),
            FromJob::CandidateValidation(msg) => AllMessages::CandidateValidation(msg),
            FromJob::CandidateSelection(msg) => AllMessages::CandidateSelection(msg),
            FromJob::StatementDistribution(msg) => AllMessages::StatementDistribution(msg),
            FromJob::PoVDistribution(msg) => AllMessages::PoVDistribution(msg),
            FromJob::Provisioner(msg) => AllMessages::Provisioner(msg),
        }
    }
}

impl vstd::std_specs::convert::FromSpecImpl<FromJob> for AllMessages {
    open spec fn obeys_from_spec() -> bool {
        true
    }

    open spec fn from_spec(f: FromJob) -> Self {
        match f {
            FromJob::AvailabilityStore(msg) => AllMessages::AvailabilityStore(msg),
            FromJob::RuntimeApiMessage(msg) => AllMessages::RuntimeApi(msg),
            FromJob::CandidateValidation(msg) => AllMessages::CandidateValidation(msg),
            FromJob::CandidateSelection(msg) => AllMessages::CandidateSelection(msg),
            FromJob::StatementDistribution(msg) => AllMessages::StatementDistribution(msg),
            FromJob::PoVDistribution(msg) => AllMessages::PoVDistribution(msg),
            FromJob::Provisioner(msg) => AllMessages::Provisioner(msg),
        }
    }
}

impl TryFrom<AllMessages> for FromJob {
    type Error = &'static str;

    fn try_from(f: AllMessages) -> (message: Result<Self, Self::Error>) {
        match f {
            AllMessages::AvailabilityStore(msg) => Ok(FromJob::AvailabilityStore(msg)),
            AllMessages::RuntimeApi(msg) => Ok(FromJob::RuntimeApiMessage(msg)),
            AllMessages::CandidateValidation(msg) => Ok(FromJob::CandidateValidation(msg)),
            AllMessages::CandidateSelection(msg) => Ok(FromJob::CandidateSelection(msg)),
            AllMessages::StatementDistribution(msg) => Ok(FromJob::StatementDistribution(msg)),
            AllMessages::PoVDistribution(msg) => Ok(FromJob::PoVDistribution(msg)),
            AllMessages::Provisioner(msg) => Ok(FromJob::Provisioner(msg)),
            AllMessages::Other => Err("can't convert this AllMessages variant to FromJob"),
        }
    }
}

impl vstd::std_specs::convert::TryFromSpecImpl<AllMessages> for FromJob {
    open spec fn obeys_try_from_spec() -> bool {
        true
    }

    open spec fn try_from_spec(f: AllMessages) -> Result<Self, Self::Error> {
        match f {
            AllMessages::AvailabilityStore(msg) => Ok(FromJob::AvailabilityStore(msg)),
            AllMessages::RuntimeApi(msg) => Ok(FromJob::RuntimeApiMessage(msg)),
            AllMessages::CandidateValidation(msg) => Ok(FromJob::CandidateValidation(msg)),
            AllMessages::CandidateSelection(msg) => Ok(FromJob::CandidateSelection(msg)),
            AllMessages::StatementDistribution(msg) => Ok(FromJob::StatementDistribution(msg)),
            AllMessages::PoVDistribution(msg) => Ok(FromJob::PoVDistribution(msg)),
            AllMessages::Provisioner(msg) => Ok(FromJob::Provisioner(msg)),
            AllMessages::Other => Err("can't convert this AllMessages variant to FromJob"),
        }
    }
}

/// A candidate with the votes of the group that backs it.
#[derive(Debug, PartialEq, Eq)]
pub struct BackedCandidate {
    pub candidate: Arc<AbridgedCandidateReceipt>,
    pub validity_votes: Vec<ValidityAttestation>,
    /// The members of the group whose votes these are.
    pub validator_indices: ValidatorIndices,
}

/// What a watcher of backed candidates is sent.
#[derive(Debug, PartialEq, Eq)]
pub struct NewBackedCandidate(pub BackedCandidate);

} // verus!
