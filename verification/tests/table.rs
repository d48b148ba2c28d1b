//! Groups, votes and what is made of them.
use std::collections::{HashMap, HashSet};
use std::sync::Arc;

use candidate_backing::availability::make_pov_available;
use candidate_backing::backed::{backed_candidate, get_backed, validator_indices};
use candidate_backing::messages::{
    AllMessages, AvailabilityStoreMessage, FromJob, NewBackedCandidate, ProvisionableData,
    ProvisionerMessage, RuntimeApiMessage, RuntimeApiRequest,
};
use candidate_backing::misbehavior::{issue_new_misbehaviors, send_reports};
use candidate_backing::primitives::{
    AbridgedCandidateReceipt, ErasureChunk, H256, MisbehaviorReport, SignedFullStatement,
    SigningContext, Statement, ValidatorId, ValidatorSignature, ValidityAttestation,
};
use candidate_backing::table::{
    group_quorum, position, primitive_statement_to_table, TableAttestedCandidate, TableContext,
    TableSignedStatement, TableStatement,
};

fn context() -> TableContext {
    let mut groups = HashMap::new();
    groups.insert(1, vec![2, 0, 3]);
    groups.insert(2, vec![1]);
    TableContext {
        signing_context: SigningContext { session_index: 1, parent_hash: H256([1; 32]) },
        validator: None,
        groups,
        validators: (0..5).map(|i| ValidatorId([i; 32])).collect(),
    }
}

fn receipt() -> Arc<AbridgedCandidateReceipt> {
    Arc::new(AbridgedCandidateReceipt {
        hash: H256([9; 32]),
        parachain_index: 1,
        relay_parent: H256([5; 32]),
        pov_block_hash: H256([6; 32]),
    })
}

fn vote(id: u8) -> ValidityAttestation {
    ValidityAttestation::Explicit(ValidatorSignature([id; 64]))
}

#[test]
fn quorum_is_more_than_half() {
    assert_eq!(group_quorum(0), 1);
    assert_eq!(group_quorum(1), 1);
    assert_eq!(group_quorum(2), 2);
    assert_eq!(group_quorum(3), 2);
    assert_eq!(group_quorum(4), 3);
    assert_eq!(group_quorum(usize::MAX), usize::MAX / 2 + 1);
}

#[test]
fn membership_and_votes_go_by_the_group() {
    let context = context();
    assert!(context.is_member_of(0, &1));
    assert!(!context.is_member_of(1, &1));
    assert!(!context.is_member_of(0, &7));
    assert_eq!(context.requisite_votes(&1), 2);
    assert_eq!(context.requisite_votes(&2), 1);
    assert_eq!(context.requisite_votes(&7), usize::MAX);
}

#[test]
fn position_is_the_first() {
    assert_eq!(position(&vec![4, 2, 4], 4), Some(0));
    assert_eq!(position(&vec![4, 2, 4], 2), Some(1));
    assert_eq!(position(&vec![4, 2, 4], 3), None);
}

#[test]
fn statements_keep_their_content_in_the_table() {
    let signature = ValidatorSignature([3; 64]);
    let hash = H256([9; 32]);
    let cases = vec![
        (Statement::Seconded(receipt()), TableStatement::Candidate(receipt())),
        (Statement::Valid(hash), TableStatement::Valid(hash)),
        (Statement::Invalid(hash), TableStatement::Invalid(hash)),
    ];
    for (payload, statement) in cases {
        let signed = SignedFullStatement { payload, validator_index: 4, signature };
        assert_eq!(
            primitive_statement_to_table(&signed),
            TableSignedStatement { statement, signature, sender: 4 }
        );
    }
}

#[test]
fn bits_stand_for_voters() {
    let bits = |group: Vec<u32>, ids: Vec<u32>| validator_indices(&group, &ids).to_vec();
    assert_eq!(bits(vec![2, 0, 3], vec![]), vec![false, false, false]);
    assert_eq!(bits(vec![2, 0, 3], vec![3]), vec![false, false, true]);
    assert_eq!(bits(vec![2, 0, 3], vec![3, 2, 3]), vec![true, false, true]);
    // Somebody from outside the group counts for nothing.
    assert_eq!(bits(vec![2, 0, 3], vec![1, 0]), vec![false, true, false]);
    // Only the first of two places is marked.
    assert_eq!(bits(vec![2, 2], vec![2]), vec![true, false]);
    assert_eq!(bits(vec![], vec![2]), Vec::<bool>::new());
    // More than one byte of bits.
    let group: Vec<u32> = (0..20).collect();
    let marked = bits(group, vec![0, 7, 8, 19]);
    let set: Vec<usize> = (0..20).filter(|i| marked[*i]).collect();
    assert_eq!(set, vec![0, 7, 8, 19]);
    assert_eq!(marked.len(), 20);
}

#[test]
fn a_backed_candidate_has_all_its_votes() {
    let attested = TableAttestedCandidate {
        candidate: receipt(),
        validity_votes: vec![(3, vote(3)), (2, vote(2))],
    };
    let NewBackedCandidate(backed) = backed_candidate(attested, &vec![2, 0, 3]);
    assert_eq!(backed.candidate, receipt());
    assert_eq!(backed.validity_votes, vec![vote(3), vote(2)]);
    assert_eq!(backed.validator_indices.to_vec(), vec![true, false, true]);
}

#[test]
fn nothing_is_backed_without_a_group() {
    let proposed = || {
        vec![
            TableAttestedCandidate { candidate: receipt(), validity_votes: vec![(2, vote(2))] },
            TableAttestedCandidate { candidate: receipt(), validity_votes: vec![(0, vote(0))] },
        ]
    };
    assert_eq!(get_backed(&context(), 7, proposed()).len(), 0);
    let backed = get_backed(&context(), 1, proposed());
    assert_eq!(backed.len(), 2);
    assert_eq!(backed[0].0.validator_indices.to_vec(), vec![true, false, false]);
    assert_eq!(backed[1].0.validator_indices.to_vec(), vec![false, true, false]);
}

#[test]
fn each_chunk_goes_to_its_validator() {
    let parent = H256([5; 32]);
    let messages = make_pov_available(
        parent,
        vec![vec![10], vec![11], vec![12]],
        vec![vec![vec![20]], vec![vec![21]]],
    );
    let expected: Vec<FromJob> = (0..2)
        .map(|i| {
            FromJob::AvailabilityStore(AvailabilityStoreMessage::StoreChunk(
                parent,
                i,
                ErasureChunk {
                    chunk: vec![10 + i as u8],
                    index: i,
                    proof: vec![vec![20 + i as u8]],
                },
            ))
        })
        .collect();
    assert_eq!(messages, expected);
}

#[test]
fn misbehavior_is_reported_once() {
    let mut reported: HashSet<u32> = HashSet::new();
    let ids = |records: Vec<_>| -> Vec<u32> {
        records
            .iter()
            .map(|r: &candidate_backing::misbehavior::FromTableMisbehavior| r.id)
            .collect()
    };
    assert_eq!(ids(issue_new_misbehaviors(&context(), &mut reported, &vec![3, 1])), vec![3, 1]);
    assert_eq!(ids(issue_new_misbehaviors(&context(), &mut reported, &vec![1, 4, 3])), vec![4]);
    assert_eq!(ids(issue_new_misbehaviors(&context(), &mut reported, &vec![1, 3])), vec![]);
    assert_eq!(reported.len(), 3);
}

#[test]
fn reports_that_cannot_be_made_are_left_out() {
    let parent = H256([5; 32]);
    let statement = |i| SignedFullStatement {
        payload: Statement::Valid(H256([9; 32])),
        validator_index: i,
        signature: ValidatorSignature([0; 64]),
    };
    let report =
        |i| MisbehaviorReport::SelfContradiction(receipt(), statement(i), statement(i));
    let message = |i| {
        FromJob::Provisioner(ProvisionerMessage::ProvisionableData(
            ProvisionableData::MisbehaviorReport(parent, report(i)),
        ))
    };
    let messages = send_reports(parent, vec![None, Some(report(1)), None, Some(report(2))]);
    assert_eq!(messages, vec![message(1), message(2)]);
}

#[test]
fn messages_of_jobs_are_recognised() {
    let message =
        || FromJob::RuntimeApiMessage(RuntimeApiMessage::Request(H256([5; 32]), RuntimeApiRequest::Validators));
    let sent = AllMessages::from(message());
    assert_eq!(
        sent,
        AllMessages::RuntimeApi(RuntimeApiMessage::Request(
            H256([5; 32]),
            RuntimeApiRequest::Validators
        ))
    );
    assert_eq!(FromJob::try_from(sent), Ok(message()));
    assert_eq!(
        FromJob::try_from(AllMessages::Other),
        Err("can't convert this AllMessages variant to FromJob")
    );
}
