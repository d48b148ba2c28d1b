//! What a backing job and its statement table tell each other.
use std::collections::HashMap;
use std::sync::Arc;

use vstd::prelude::*;

use crate::primitives::{
    AbridgedCandidateReceipt, H256, ParaId, SignedFullStatement, SigningContext, Statement,
    Validator, ValidatorId, ValidatorIndex, ValidatorSignature, ValidityAttestation,
};

verus! {

broadcast use vstd::std_specs::hash::group_hash_axioms;

/// The number of votes that carry a candidate in a group: more than half of its members.
pub open spec fn quorum(n_validators: nat) -> nat {
    n_validators / 2 + 1
}

/// The number of votes that carry a candidate in a group of so many members.
pub fn group_quorum(n_validators: usize) -> (votes: usize)
    ensures
        votes == quorum(n_validators as nat),
{
    (n_validators / 2) + 1
}

/// Looks for the first place at which an item stands.
pub fn position(items: &Vec<ValidatorIndex>, item: ValidatorIndex) -> (place: Option<usize>)
    ensures
        match place {
            Some(i) => i < items@.len() && is_first_at(items@, item, i as int),
            None => !items@.contains(item),
        },
{
    let mut i: usize = 0;
    while i < items.len()
        invariant
            0 <= i <= items@.len(),
            forall|j: int| 0 <= j < i ==> items@[j] != item,
        decreases items@.len() - i,
    {
        if items[i] == item {
            return Some(i);
        }
        i = i + 1;
    }
    None
}

/// Whether the item stands at the place, and nowhere before it.
pub open spec fn is_first_at<T>(items: Seq<T>, item: T, place: int) -> bool {
    &&& 0 <= place < items.len()
    &&& items[place] == item
    &&& forall|j: int| 0 <= j < place ==> items[j] != item
}

/// What the statement table knows of the validators of a block.
pub struct TableContext {
    /// The context of the signatures of this session.
    pub signing_context: SigningContext,
    /// The identity of this node, where it is a validator.
    pub validator: Option<Validator>,
    /// The group that each scheduled parachain is assigned to.
    pub groups: HashMap<ParaId, Vec<ValidatorIndex>>,
    /// The validator set.
    pub validators: Vec<ValidatorId>,
}

impl TableContext {
    /// The members of the group of a parachain, where it has one.
    pub open spec fn group(self, para: ParaId) -> Option<Seq<ValidatorIndex>> {
        if self.groups@.contains_key(para) {
            Some(self.groups@[para]@)
        } else {
            None
        }
    }

    /// Whether the validator is in the group of the parachain.
    pub fn is_member_of(&self, authority: ValidatorIndex, group: &ParaId) -> (member: bool)
        ensures
            member == (self.group(*group) matches Some(members) && members.contains(authority)),
    {
        match self.groups.get(group) {
            Some(members) => position(members, authority).is_some(),
            None => false,
        }
    }

    /// The number of votes that a candidate of the parachain needs. No number of votes is enough
    /// for a parachain without a group.
    pub fn requisite_votes(&self, group: &ParaId) -> (votes: usize)
        ensures
            votes == match self.group(*group) {
                Some(members) => quorum(members.len()),
                None => usize::MAX as nat,
            },
    {
        match self.groups.get(group) {
            Some(members) => group_quorum(members.len()),
            None => usize::MAX,
        }
    }
}

/// A statement in the terms of the statement table.
#[derive(Debug, PartialEq, Eq)]
pub enum TableStatement {
    Candidate(Arc<AbridgedCandidateReceipt>),
    Valid(H256),
    Invalid(H256),
}

/// A signed statement in the terms of the statement table.
#[derive(Debug, PartialEq, Eq)]
pub struct TableSignedStatement {
    pub statement: TableStatement,
    pub signature: ValidatorSignature,
    pub sender: ValidatorIndex,
}

/// What the statement table holds of a candidate after an import.
#[derive(Clone, Copy, Debug, PartialEq, Eq)]
pub struct TableSummary {
    pub candidate: H256,
    pub group_id: ParaId,
}

/// A candidate that has found enough votes, with the votes and who cast them.
#[derive(Debug, PartialEq, Eq)]
pub struct TableAttestedCandidate {
    pub candidate: Arc<AbridgedCandidateReceipt>,
    pub validity_votes: Vec<(ValidatorIndex, ValidityAttestation)>,
}

/// The signed statement that the table takes for one that came over the network.
pub open spec fn table_statement(s: SignedFullStatement) -> TableSignedStatement {
    TableSignedStatement {
        statement: match s.payload {
            Statement::Seconded(candidate) => TableStatement::Candidate(candidate),
            Statement::Valid(hash) => TableStatement::Valid(hash),
            Statement::Invalid(hash) => TableStatement::Invalid(hash),
        },
        signature: s.signature,
        sender: s.validator_index,
    }
}

/// Puts a statement into the terms of the statement table.
pub fn primitive_statement_to_table(s: &SignedFullStatement) -> (statement: TableSignedStatement)
    ensures
        statement == table_statement(*s),
{
    let statement = match &s.payload {
        Statement::Seconded(c) => TableStatement::Candidate(c.clone()),
        Statement::Valid(h) => TableStatement::Valid(*h),
        Statement::Invalid(h) => TableStatement::Invalid(*h),
    };
    TableSignedStatement { statement, signature: s.signature, sender: s.validator_index }
}

} // verus!
