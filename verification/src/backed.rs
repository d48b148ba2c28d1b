//! Candidates with enough votes, in the form in which they go on chain.
use std::sync::Arc;

use vstd::prelude::*;

use crate::bits::{max_bits, ValidatorIndices};
use crate::messages::{BackedCandidate, NewBackedCandidate};
use crate::primitives::{AbridgedCandidateReceipt, ParaId, ValidatorIndex, ValidityAttestation};
use crate::table::{is_first_at, position, TableAttestedCandidate, TableContext};

verus! {

/// A backed candidate as a mathematical value.
pub ghost struct BackedView {
    pub candidate: Arc<AbridgedCandidateReceipt>,
    pub validity_votes: Seq<ValidityAttestation>,
    pub validator_indices: Seq<bool>,
}

impl View for NewBackedCandidate {
    type V = BackedView;

    open spec fn view(&self) -> BackedView {
        BackedView {
            candidate: self.0.candidate,
            validity_votes: self.0.validity_votes@,
            validator_indices: self.0.validator_indices@,
        }
    }
}

/// The validators who have voted, in the order of their votes.
pub open spec fn voters(votes: Seq<(ValidatorIndex, ValidityAttestation)>) -> Seq<ValidatorIndex> {
    votes.map_values(|vote: (ValidatorIndex, ValidityAttestation)| vote.0)
}

/// The votes themselves, in order.
pub open spec fn attestations(votes: Seq<(ValidatorIndex, ValidityAttestation)>) -> Seq<
    ValidityAttestation,
> {
    votes.map_values(|vote: (ValidatorIndex, ValidityAttestation)| vote.1)
}

/// One bit for each place in the group: set where a voter stands for the first time.
pub open spec fn voter_bits(group: Seq<ValidatorIndex>, voters: Seq<ValidatorIndex>) -> Seq<bool> {
    Seq::new(
        group.len(),
        |i: int| voters.contains(group[i]) && is_first_at(group, group[i], i),
    )
}

/// The backed form of a candidate that the group has voted for.
pub open spec fn backed_view(
    attested: TableAttestedCandidate,
    group: Seq<ValidatorIndex>,
) -> BackedView {
    BackedView {
        candidate: attested.candidate,
        validity_votes: attestations(attested.validity_votes@),
        validator_indices: voter_bits(group, voters(attested.validity_votes@)),
    }
}

/// The backed forms of the candidates that the table proposes. There are none where the parachain
/// has no group.
pub open spec fn backed_views(
    proposed: Seq<TableAttestedCandidate>,
    group: Option<Seq<ValidatorIndex>>,
) -> Seq<BackedView> {
    match group {
        Some(members) => proposed.map_values(
            |attested: TableAttestedCandidate| backed_view(attested, members),
        ),
        None => Seq::empty(),
    }
}

/// Marks the members of the group who have voted.
pub fn validator_indices(
    group: &Vec<ValidatorIndex>,
    ids: &Vec<ValidatorIndex>,
) -> (validator_indices: ValidatorIndices)
    requires
        group@.len() <= max_bits(),
    ensures
        validator_indices@ == voter_bits(group@, ids@),
{
    let mut validator_indices = ValidatorIndices::with_capacity(group.len());
    validator_indices.resize(group.len(), false);
    let mut i: usize = 0;
    assert(validator_indices@ =~= voter_bits(group@, ids@.take(0)));
    while i < ids.len()
        invariant
            0 <= i <= ids@.len(),
            validator_indices@ == voter_bits(group@, ids@.take(i as int)),
        decreases ids@.len() - i,
    {
        let ghost seen = ids@.take(i as int);
        let ghost with_next = ids@.take(i + 1);
        assert(with_next =~= seen.push(ids@[i as int]));
        assert forall|id: ValidatorIndex|
            with_next.contains(id) == (seen.contains(id) || id == ids@[i as int]) by {
            if seen.contains(id) {
                let k = choose|k: int| 0 <= k < seen.len() && seen[k] == id;
                assert(with_next[k] == id);
            }
            assert(with_next[i as int] == ids@[i as int]);
        }
        match position(group, ids[i]) {
            Some(place) => {
                validator_indices.set(place, true);
            },
            None => {},
        }
        assert(validator_indices@ =~= voter_bits(group@, with_next));
        i = i + 1;
    }
    assert(ids@.take(ids@.len() as int) =~= ids@);
    validator_indices
}

/// Puts a candidate that the group has voted for into its backed form.
pub fn backed_candidate(
    attested: TableAttestedCandidate,
    group: &Vec<ValidatorIndex>,
) -> (backed: NewBackedCandidate)
    requires
        group@.len() <= max_bits(),
    ensures
        backed@ == backed_view(attested, group@),
{
    let mut ids: Vec<ValidatorIndex> = Vec::new();
    let mut validity_votes: Vec<ValidityAttestation> = Vec::new();
    let mut i: usize = 0;
    while i < attested.validity_votes.len()
        invariant
            0 <= i <= attested.validity_votes@.len(),
            ids@ == voters(attested.validity_votes@).take(i as int),
            validity_votes@ == attestations(attested.validity_votes@).take(i as int),
        decreases attested.validity_votes@.len() - i,
    {
        let (id, vote) = attested.validity_votes[i];
        ids.push(id);
        validity_votes.push(vote);
        i = i + 1;
    }
    assert(ids@ =~= voters(attested.validity_votes@));
    assert(validity_votes@ =~= attestations(attested.validity_votes@));
    let validator_indices = validator_indices(group, &ids);
    NewBackedCandidate(
        BackedCandidate { candidate: attested.candidate, validity_votes, validator_indices },
    )
}

impl TableContext {
    /// Whether every group is small enough for one bit to be kept for each of its members.
    pub open spec fn groups_fit(self) -> bool {
        forall|para: ParaId| #[trigger]
            self.groups@.contains_key(para) ==> self.groups@[para]@.len() <= max_bits()
    }
}

/// Puts the candidates that the table proposes into their backed form, with the group of the
/// parachain that this node is assigned to.
pub fn get_backed(
    table_context: &TableContext,
    assignment: ParaId,
    proposed: Vec<TableAttestedCandidate>,
) -> (backed: Vec<NewBackedCandidate>)
    requires
        table_context.groups_fit(),
    ensures
        backed@.map_values(|b: NewBackedCandidate| b@) == backed_views(
            proposed@,
            table_context.group(assignment),
        ),
{
    broadcast use vstd::std_specs::hash::group_hash_axioms;

    let mut backed: Vec<NewBackedCandidate> = Vec::new();
    match table_context.groups.get(&assignment) {
        Some(group) => {
            for attested in it: proposed
                invariant
                    group@.len() <= max_bits(),
                    backed@.len() == it.index(),
                    it.seq() == proposed@,
                    forall|j: int|
                        0 <= j < backed@.len() ==> (#[trigger] backed@[j])@ == backed_view(
                            proposed@[j],
                            group@,
                        ),
            {
                backed.push(backed_candidate(attested, group));
            }
        },
        None => {},
    }
    assert(backed@.map_values(|b: NewBackedCandidate| b@) =~= backed_views(
        proposed@,
        table_context.group(assignment),
    ));
    backed
}

} // verus!
