//! Plain values that the backing decisions read, and those that they only carry along.
use std::sync::Arc;

use vstd::prelude::*;

verus! {

/// Identifier of a parachain.
pub type ParaId = u32;

/// Position of a validator in the validator set of a session.
pub type ValidatorIndex = u32;

/// Position of a validator group among the groups of a block.
pub type GroupIndex = u32;

/// Compares two arrays of bytes.
fn bytes_equal(a: &[u8; 32], b: &[u8; 32]) -> (equal: bool)
    ensures
        equal == (*a == *b),
{
    let mut i: usize = 0;
    while i < 32
        invariant
            0 <= i <= 32,
            forall|j: int| 0 <= j < i ==> a[j] == b[j],
        decreases 32 - i,
    {
        if a[i] != b[i] {
            return false;
        }
        i = i + 1;
    }
    assert(*a =~= *b);
    true
}

/// A digest of a block, a candidate or a proof of validity.
#[derive(Clone, Copy, Debug, Eq)]
pub struct H256(pub [u8; 32]);

impl PartialEq for H256 {
    fn eq(&self, other: &Self) -> (equal: bool) {
        bytes_equal(&self.0, &other.0)
    }
}

impl vstd::std_specs::cmp::PartialEqSpecImpl for H256 {
    open spec fn obeys_eq_spec() -> bool {
        true
    }

    open spec fn eq_spec(&self, other: &Self) -> bool {
        self.0 == other.0
    }
}

/// The public key of a validator.
#[derive(Clone, Copy, Debug, Eq)]
pub struct ValidatorId(pub [u8; 32]);

impl PartialEq for ValidatorId {
    fn eq(&self, other: &Self) -> (equal: bool) {
        bytes_equal(&self.0, &other.0)
    }
}

impl vstd::std_specs::cmp::PartialEqSpecImpl for ValidatorId {
    open spec fn obeys_eq_spec() -> bool {
        true
    }

    open spec fn eq_spec(&self, other: &Self) -> bool {
        self.0 == other.0
    }
}

/// The signature of a validator under a statement.
#[derive(Clone, Copy, Debug, PartialEq, Eq)]
pub struct ValidatorSignature(pub [u8; 64]);

/// What a signature binds a statement to.
#[derive(Clone, Copy, Debug, PartialEq, Eq)]
pub struct SigningContext {
    pub session_index: u32,
    pub parent_hash: H256,
}

/// The head of a parachain.
#[derive(Debug, Default, PartialEq, Eq)]
pub struct HeadData(pub Vec<u8>);

/// The block of a parachain, in the form that its validation function takes.
#[derive(Debug, Default, PartialEq, Eq)]
pub struct BlockData(pub Vec<u8>);

/// The proof of validity of a candidate.
#[derive(Debug, Default, PartialEq, Eq)]
pub struct PoVBlock {
    pub block_data: BlockData,
}

/// The limits that validation keeps to on every parachain.
#[derive(Clone, Copy, Debug, PartialEq, Eq)]
pub struct GlobalValidationSchedule {
    pub max_code_size: u32,
    pub max_head_data_size: u32,
    pub block_number: u32,
}

/// What validation knows of the candidate's own parachain.
#[derive(Debug, PartialEq, Eq)]
pub struct LocalValidationData {
    pub parent_head: HeadData,
    pub balance: u128,
    pub code_upgrade_allowed: Option<u32>,
}

/// The part of the validation data that a candidate leaves out.
#[derive(Debug, PartialEq, Eq)]
pub struct OmittedValidationData {
    pub global_validation: GlobalValidationSchedule,
    pub local_validation: LocalValidationData,
}

/// What is kept available of a backed candidate.
#[derive(Debug, PartialEq, Eq)]
pub struct AvailableData {
    pub pov_block: Arc<PoVBlock>,
    pub omitted_validation: OmittedValidationData,
}

/// One erasure coded piece of available data, with its proof of membership.
#[derive(Debug, PartialEq, Eq)]
pub struct ErasureChunk {
    pub chunk: Vec<u8>,
    pub index: u32,
    pub proof: Vec<Vec<u8>>,
}

/// The receipt of a candidate block of a parachain, so far as backing looks at it.
#[derive(Debug, PartialEq, Eq)]
pub struct AbridgedCandidateReceipt {
    /// The digest of the receipt, under which statements refer to it.
    pub hash: H256,
    /// The parachain that the candidate belongs to.
    pub parachain_index: ParaId,
    /// The relay chain block that the candidate builds on.
    pub relay_parent: H256,
    /// The digest of the proof of validity.
    pub pov_block_hash: H256,
}

impl AbridgedCandidateReceipt {
    /// The digest of the receipt.
    pub fn hash(&self) -> (hash: H256)
        ensures
            hash == self.hash,
    {
        self.hash
    }
}

/// The outcome of validating a candidate.
#[derive(Clone, Copy, Debug, PartialEq, Eq, Structural)]
pub enum ValidationResult {
    Valid,
    Invalid,
}

/// What a validator says of a candidate.
#[derive(Debug, PartialEq, Eq)]
pub enum Statement {
    /// The validator proposes the candidate.
    Seconded(Arc<AbridgedCandidateReceipt>),
    /// The validator found the candidate to be valid.
    Valid(H256),
    /// The validator found the candidate to be invalid.
    Invalid(H256),
}

impl Clone for Statement {
    fn clone(&self) -> (copy: Self)
        ensures
            copy == *self,
    {
        match self {
            Statement::Seconded(candidate) => Statement::Seconded(candidate.clone()),
            Statement::Valid(hash) => Statement::Valid(*hash),
            Statement::Invalid(hash) => Statement::Invalid(*hash),
        }
    }
}

/// A statement with the signature of the validator who made it.
#[derive(Debug, PartialEq, Eq)]
pub struct SignedFullStatement {
    pub payload: Statement,
    pub validator_index: ValidatorIndex,
    pub signature: ValidatorSignature,
}

impl Clone for SignedFullStatement {
    fn clone(&self) -> (copy: Self)
        ensures
            copy == *self,
    {
        SignedFullStatement {
            payload: self.payload.clone(),
            validator_index: self.validator_index,
            signature: self.signature,
        }
    }
}

/// The identity under which a node signs.
#[derive(Clone, Copy, Debug, PartialEq, Eq)]
pub struct Validator {
    pub id: ValidatorId,
    pub index: ValidatorIndex,
    pub signing_context: SigningContext,
}

/// A vote for the validity of a candidate, as it goes on chain.
#[derive(Clone, Copy, Debug, PartialEq, Eq)]
pub enum ValidityAttestation {
    /// The signature under a `Seconded` statement.
    Implicit(ValidatorSignature),
    /// The signature under a `Valid` statement.
    Explicit(ValidatorSignature),
}

/// Evidence against a validator.
#[derive(Debug, PartialEq, Eq)]
pub enum MisbehaviorReport {
    /// Validators disagree on the validity of a candidate.
    CandidateValidityDisagreement(Arc<AbridgedCandidateReceipt>, Vec<SignedFullStatement>),
    /// A validator has contradicted itself on a candidate.
    SelfContradiction(Arc<AbridgedCandidateReceipt>, SignedFullStatement, SignedFullStatement),
    /// A validator has seconded two candidates on one relay chain block.
    DoubleVote(Arc<AbridgedCandidateReceipt>, SignedFullStatement, SignedFullStatement),
}

} // verus!
