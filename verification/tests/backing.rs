//! Whole runs of the subsystem and its job, with a node around them that answers by hand.
use std::collections::{HashMap, VecDeque};
use std::sync::Arc;

use candidate_backing::error::Error;
use candidate_backing::job::CandidateBackingJob;
use candidate_backing::jobs::StreamYield;
use candidate_backing::messages::{
    AllMessages, AvailabilityStoreMessage, CandidateBackingMessage, CandidateSelectionMessage,
    CandidateValidationMessage, FromJob, NewBackedCandidate, PoVDistributionMessage,
    ProvisionableData, ProvisionerMessage, RuntimeApiMessage, RuntimeApiRequest,
    StatementDistributionMessage, ToJob,
};
use candidate_backing::primitives::{
    AbridgedCandidateReceipt, BlockData, GlobalValidationSchedule, H256, HeadData,
    LocalValidationData, MisbehaviorReport, ParaId, PoVBlock, SignedFullStatement, SigningContext,
    Statement, ValidationResult, Validator, ValidatorId, ValidatorIndex, ValidatorSignature,
    ValidityAttestation,
};
use candidate_backing::protocol::{Action, Reply};
use candidate_backing::startup::{startup_requests, CoreAssignment, JobSetup, SchedulerRoster};
use candidate_backing::subsystem::{
    CandidateBackingSubsystem, FromOverseer, LoopAction, LoopEvent, OverseerSignal, RunLoop,
};
use candidate_backing::table::{
    TableAttestedCandidate, TableContext, TableSignedStatement, TableStatement, TableSummary,
};

const ALICE: u8 = 11;
const BOB: u8 = 12;
const CHARLIE: u8 = 13;
const DAVE: u8 = 14;
const FERDIE: u8 = 15;

struct TestState {
    chain_ids: Vec<ParaId>,
    validator_public: Vec<ValidatorId>,
    head_data: HashMap<ParaId, Vec<u8>>,
    signing_context: SigningContext,
    relay_parent: H256,
}

impl Default for TestState {
    fn default() -> Self {
        let mut head_data = HashMap::new();
        head_data.insert(1, vec![4, 5, 6]);
        TestState {
            chain_ids: vec![1, 2, 3],
            validator_public: [ALICE, BOB, CHARLIE, DAVE, FERDIE]
                .iter()
                .map(|b| ValidatorId([*b; 32]))
                .collect(),
            head_data,
            signing_context: SigningContext { session_index: 1, parent_hash: H256([1; 32]) },
            relay_parent: H256([5; 32]),
        }
    }
}

fn roster() -> SchedulerRoster {
    SchedulerRoster {
        validator_groups: vec![vec![2, 0, 3], vec![1], vec![4]],
        scheduled: vec![
            CoreAssignment { para_id: 1, group_idx: 0 },
            CoreAssignment { para_id: 2, group_idx: 1 },
            CoreAssignment { para_id: 3, group_idx: 2 },
        ],
    }
}

fn global_validation_schedule() -> GlobalValidationSchedule {
    GlobalValidationSchedule { max_code_size: 1000, max_head_data_size: 1000, block_number: 0 }
}

fn local_validation_data() -> LocalValidationData {
    LocalValidationData {
        parent_head: HeadData(vec![7, 8, 9]),
        balance: 0,
        code_upgrade_allowed: None,
    }
}

fn validation(result: ValidationResult) -> Reply {
    Reply::Validation(Ok((result, global_validation_schedule(), local_validation_data())))
}

fn pov(bytes: Vec<u8>) -> Arc<PoVBlock> {
    Arc::new(PoVBlock { block_data: BlockData(bytes) })
}

fn digest(bytes: &[u8]) -> H256 {
    let mut out = [0x5au8; 32];
    for (i, b) in bytes.iter().enumerate() {
        out[i % 32] = out[i % 32].rotate_left(3) ^ b.wrapping_add(i as u8);
    }
    H256(out)
}

fn candidate(state: &TestState, pov: &PoVBlock) -> Arc<AbridgedCandidateReceipt> {
    let pov_block_hash = digest(&pov.block_data.0);
    let mut all = state.relay_parent.0.to_vec();
    all.extend(pov_block_hash.0.iter());
    Arc::new(AbridgedCandidateReceipt {
        hash: digest(&all),
        parachain_index: state.chain_ids[0],
        relay_parent: state.relay_parent,
        pov_block_hash,
    })
}

/// A stand-in for a signature, bound to the key, the context and the statement.
fn signature(key: &ValidatorId, context: &SigningContext, payload: &Statement) -> ValidatorSignature {
    let (kind, hash) = match payload {
        Statement::Seconded(c) => (1, c.hash),
        Statement::Valid(h) => (2, *h),
        Statement::Invalid(h) => (3, *h),
    };
    let mut bytes = [0; 64];
    bytes[0] = key.0[0];
    bytes[1] = kind;
    bytes[2] = context.session_index as u8;
    bytes[3] = context.parent_hash.0[0];
    bytes[32..].copy_from_slice(&hash.0);
    ValidatorSignature(bytes)
}

fn sign(state: &TestState, payload: Statement, index: ValidatorIndex) -> SignedFullStatement {
    let key = &state.validator_public[index as usize];
    let signature = signature(key, &state.signing_context, &payload);
    SignedFullStatement { payload, validator_index: index, signature }
}

fn check_signature(state: &TestState, statement: &SignedFullStatement) -> bool {
    let key = &state.validator_public[statement.validator_index as usize];
    statement.signature == signature(key, &state.signing_context, &statement.payload)
}

/// A small stand-in for the statement table.
#[derive(Default)]
struct Table {
    candidates: Vec<Arc<AbridgedCandidateReceipt>>,
    statements: Vec<(ValidatorIndex, u8, H256, ValidatorSignature)>,
}

impl Table {
    fn find(&self, hash: &H256) -> Option<Arc<AbridgedCandidateReceipt>> {
        self.candidates.iter().find(|c| c.hash == *hash).cloned()
    }

    fn import(&mut self, s: TableSignedStatement) -> Option<TableSummary> {
        let (kind, hash) = match s.statement {
            TableStatement::Candidate(c) => {
                let hash = c.hash;
                if self.find(&hash).is_none() {
                    self.candidates.push(c);
                }
                (1, hash)
            }
            TableStatement::Valid(h) => (2, h),
            TableStatement::Invalid(h) => (3, h),
        };
        self.statements.push((s.sender, kind, hash, s.signature));
        self.find(&hash).map(|c| TableSummary { candidate: hash, group_id: c.parachain_index })
    }

    fn contradiction(&self, id: ValidatorIndex) -> Option<(H256, ValidatorSignature, ValidatorSignature)> {
        for (a, kind_a, hash_a, sig_a) in &self.statements {
            for (b, kind_b, hash_b, sig_b) in &self.statements {
                if *a == id && *b == id && hash_a == hash_b && *kind_a == 2 && *kind_b == 3 {
                    return Some((*hash_a, *sig_a, *sig_b));
                }
            }
        }
        None
    }

    fn misbehaving(&self) -> Vec<ValidatorIndex> {
        (0..5).filter(|id| self.contradiction(*id).is_some()).collect()
    }

    fn report(&self, id: ValidatorIndex) -> Option<MisbehaviorReport> {
        let (hash, valid, invalid) = self.contradiction(id)?;
        let statement = |payload, signature| SignedFullStatement {
            payload,
            validator_index: id,
            signature,
        };
        Some(MisbehaviorReport::SelfContradiction(
            self.find(&hash)?,
            statement(Statement::Valid(hash), valid),
            statement(Statement::Invalid(hash), invalid),
        ))
    }

    fn proposed(&self, job: &CandidateBackingJob) -> Vec<TableAttestedCandidate> {
        let context = job.table_context();
        let mut proposed = Vec::new();
        for c in &self.candidates {
            let votes: Vec<_> = self
                .statements
                .iter()
                .filter(|(id, kind, hash, _)| {
                    *hash == c.hash && *kind != 3 && context.is_member_of(*id, &c.parachain_index)
                })
                .map(|(id, kind, _, sig)| {
                    let vote = if *kind == 1 {
                        ValidityAttestation::Implicit(*sig)
                    } else {
                        ValidityAttestation::Explicit(*sig)
                    };
                    (*id, vote)
                })
                .collect();
            if votes.len() >= context.requisite_votes(&c.parachain_index) {
                proposed.push(TableAttestedCandidate {
                    candidate: c.clone(),
                    validity_votes: votes,
                });
            }
        }
        proposed
    }
}

/// The node around the subsystem.
struct Node {
    state: TestState,
    run_loop: RunLoop,
    job: Option<CandidateBackingJob>,
    outgoing: VecDeque<FromJob>,
    table: Table,
    backed: Vec<(u64, NewBackedCandidate)>,
    finished: Option<Result<(), Error>>,
    over: bool,
}

impl Node {
    fn new() -> Self {
        Node {
            state: TestState::default(),
            run_loop: RunLoop::new(),
            job: None,
            outgoing: VecDeque::new(),
            table: Table::default(),
            backed: Vec::new(),
            finished: None,
            over: false,
        }
    }

    /// Sends something to the subsystem, and does all that comes of it.
    fn send(&mut self, message: FromOverseer) {
        let mut event = LoopEvent::Incoming(Some(message));
        loop {
            assert!(self.run_loop.accepts(&event));
            event = match self.run_loop.resume(event) {
                LoopAction::Select => return,
                LoopAction::Spawn { parent } => {
                    self.outgoing.extend(startup_requests(parent));
                    LoopEvent::Spawned(Ok(7))
                }
                LoopAction::Release { .. } => LoopEvent::Released,
                LoopAction::SendStop { .. } => {
                    let action = self.job.as_mut().unwrap().run(Some(ToJob::Stop));
                    self.act(action);
                    LoopEvent::StopSent
                }
                LoopAction::AwaitFinish { timeout_secs, .. } => {
                    assert_eq!(timeout_secs, 1);
                    LoopEvent::Finished
                }
                LoopAction::Abort { .. } => LoopEvent::Aborted,
                LoopAction::Deliver { handle, msg } => {
                    assert_eq!(handle.su_handle, 7);
                    let action = self.job.as_mut().unwrap().run(Some(msg));
                    self.act(action);
                    LoopEvent::Delivered(Ok(()))
                }
                LoopAction::Forward(_) => panic!("nothing was sent by the job"),
                LoopAction::Break(_) => {
                    self.over = true;
                    return;
                }
            };
        }
    }

    fn communicate(&mut self, msg: CandidateBackingMessage) {
        self.send(FromOverseer::Communication { msg });
    }

    /// Takes the next message of the job from the subsystem.
    fn recv(&mut self) -> AllMessages {
        let message = self.outgoing.pop_front().expect("the job has sent something");
        let event = LoopEvent::Outgoing(Some(StreamYield::Item(message)));
        assert!(self.run_loop.accepts(&event));
        match self.run_loop.resume(event) {
            LoopAction::Forward(forwarded) => {
                assert_eq!(self.run_loop.resume(LoopEvent::Forwarded), LoopAction::Select);
                forwarded
            }
            action => panic!("{:?}", action),
        }
    }

    /// Answers the request that the job waits on.
    fn answer(&mut self, reply: Reply) {
        let job = self.job.as_mut().unwrap();
        assert!(job.accepts(&reply));
        let action = job.resume(reply);
        self.act(action);
    }

    /// Does what the job asks for, until it waits for a message or an answer of the test.
    fn act(&mut self, mut action: Action) {
        loop {
            let reply = match action {
                Action::Receive => return,
                Action::Send(messages) => {
                    self.outgoing.extend(messages);
                    Reply::Sent(Ok(()))
                }
                Action::Request(message) => {
                    self.outgoing.push_back(message);
                    return;
                }
                Action::ObtainChunks { n_validators, available_data } => {
                    assert_eq!(n_validators, self.state.validator_public.len());
                    let data = &available_data.pov_block.block_data.0;
                    let chunks = (0..n_validators)
                        .map(|i| data.iter().map(|b| b.wrapping_mul(i as u8)).collect())
                        .collect();
                    let proofs = (0..n_validators).map(|i| vec![vec![i as u8]]).collect();
                    Reply::Chunks(Ok((chunks, proofs)))
                }
                Action::Sign(statement) => Reply::Signature(signature(
                    &self.state.validator_public[0],
                    &self.state.signing_context,
                    &statement,
                )),
                Action::CheckSignature { signing_context, key, statement } => {
                    let expected = signature(&key, &signing_context, &statement.payload);
                    Reply::SignatureCheck(statement.signature == expected)
                }
                Action::Import(statement) => Reply::Imported {
                    summary: self.table.import(statement),
                    misbehaving: self.table.misbehaving(),
                },
                Action::BuildReports(records) => {
                    for record in &records {
                        assert_eq!(record.signing_context, self.state.signing_context);
                        assert_eq!(
                            record.key,
                            self.state.validator_public[record.id as usize]
                        );
                    }
                    Reply::Reports(records.iter().map(|r| self.table.report(r.id)).collect())
                }
                Action::GetCandidate(hash) => Reply::Candidate(self.table.find(&hash)),
                Action::GetProposed => {
                    Reply::Proposed(self.table.proposed(self.job.as_ref().unwrap()))
                }
                Action::SendBacked { watcher, backed } => {
                    self.backed.extend(backed.into_iter().map(|b| (watcher, b)));
                    Reply::Sent(Ok(()))
                }
                Action::Finish(result) => {
                    self.finished = Some(result);
                    return;
                }
            };
            let job = self.job.as_mut().unwrap();
            assert!(job.accepts(&reply));
            action = job.resume(reply);
        }
    }

    /// Starts work on a new parent, and answers what is asked on startup.
    fn test_startup(&mut self) {
        let parent = self.state.relay_parent;
        self.send(FromOverseer::Signal(OverseerSignal::StartWork(parent)));
        for request in [
            RuntimeApiRequest::Validators,
            RuntimeApiRequest::ValidatorGroups,
            RuntimeApiRequest::SigningContext,
        ] {
            assert_eq!(
                self.recv(),
                AllMessages::RuntimeApi(RuntimeApiMessage::Request(parent, request))
            );
        }
        let validator = Validator {
            id: self.state.validator_public[0],
            index: 0,
            signing_context: self.state.signing_context,
        };
        let prepared = Ok((self.state.validator_public.clone(), roster(), validator));
        let setup = JobSetup::prepare(parent, prepared).unwrap();
        self.outgoing.push_back(setup.head_data_request());
        match self.recv() {
            AllMessages::RuntimeApi(RuntimeApiMessage::Request(
                on,
                RuntimeApiRequest::HeadData(id),
            )) => {
                assert_eq!(on, parent);
                let head = self.state.head_data.get(&id).unwrap().clone();
                self.job = Some(setup.begin(Ok(HeadData(head))).unwrap());
            }
            other => panic!("{:?}", other),
        }
    }

    fn expect_validation(
        &mut self,
        candidate: &Arc<AbridgedCandidateReceipt>,
        pov: &Arc<PoVBlock>,
        result: ValidationResult,
    ) {
        let expected_head_data = self.state.head_data[&self.state.chain_ids[0]].clone();
        match self.recv() {
            AllMessages::CandidateValidation(CandidateValidationMessage::Validate(
                parent_hash,
                c,
                head_data,
                p,
            )) => {
                assert_eq!(parent_hash, self.state.relay_parent);
                assert_eq!(p, *pov);
                assert_eq!(c, *candidate);
                assert_eq!(head_data.0, expected_head_data);
                self.answer(validation(result));
            }
            other => panic!("{:?}", other),
        }
    }

    fn expect_fetch(
        &mut self,
        candidate: &Arc<AbridgedCandidateReceipt>,
        pov: &Arc<PoVBlock>,
    ) {
        match self.recv() {
            AllMessages::PoVDistribution(PoVDistributionMessage::FetchPoV(relay_parent, c)) => {
                assert_eq!(relay_parent, self.state.relay_parent);
                assert_eq!(c, *candidate);
                self.answer(Reply::PoV(Ok(pov.clone())));
            }
            other => panic!("{:?}", other),
        }
    }

    fn expect_chunks(&mut self) {
        for i in 0..self.state.validator_public.len() {
            match self.recv() {
                AllMessages::AvailabilityStore(AvailabilityStoreMessage::StoreChunk(
                    parent_hash,
                    index,
                    chunk,
                )) => {
                    assert_eq!(parent_hash, self.state.relay_parent);
                    assert_eq!(index, i as u32);
                    assert_eq!(chunk.index, i as u32);
                    assert_eq!(chunk.proof, vec![vec![i as u8]]);
                }
                other => panic!("{:?}", other),
            }
        }
    }

    fn expect_share(&mut self) -> SignedFullStatement {
        match self.recv() {
            AllMessages::StatementDistribution(StatementDistributionMessage::Share(
                parent_hash,
                signed_statement,
            )) => {
                assert_eq!(parent_hash, self.state.relay_parent);
                assert_eq!(signed_statement.validator_index, 0);
                assert!(check_signature(&self.state, &signed_statement));
                signed_statement
            }
            other => panic!("{:?}", other),
        }
    }

    fn stop(&mut self) {
        self.send(FromOverseer::Signal(OverseerSignal::StopWork(self.state.relay_parent)));
        assert_eq!(self.finished, Some(Ok(())));
        assert!(!self.over);
    }
}

// A `Second` issues validation work, and in case validation is successful a `Share`.
#[test]
fn backing_second_works() {
    let mut node = Node::new();
    node.test_startup();
    let parent = node.state.relay_parent;
    let pov_block = pov(vec![42, 43, 44]);
    let candidate = candidate(&node.state, &pov_block);

    node.communicate(CandidateBackingMessage::Second(parent, candidate.clone(), pov_block.clone()));
    node.expect_validation(&candidate, &pov_block, ValidationResult::Valid);
    node.expect_chunks();
    let shared = node.expect_share();
    assert_eq!(shared.payload, Statement::Seconded(candidate.clone()));
    assert_eq!(node.job.as_ref().unwrap().seconded(), Some(candidate.hash));
    assert!(node.outgoing.is_empty());

    node.stop();
}

// The candidate reaches quorum.
#[test]
fn backing_works() {
    let mut node = Node::new();
    node.test_startup();
    let parent = node.state.relay_parent;
    let pov_block = pov(vec![1, 2, 3]);
    let candidate_a = candidate(&node.state, &pov_block);
    let signed_a = sign(&node.state, Statement::Seconded(candidate_a.clone()), 2);
    let signed_b = sign(&node.state, Statement::Valid(candidate_a.hash), 0);

    node.communicate(CandidateBackingMessage::Statement(parent, signed_a.clone()));
    node.expect_fetch(&candidate_a, &pov_block);
    node.expect_validation(&candidate_a, &pov_block, ValidationResult::Valid);

    node.communicate(CandidateBackingMessage::Statement(parent, signed_b.clone()));
    node.communicate(CandidateBackingMessage::RegisterBackingWatcher(parent, 99));

    assert_eq!(node.backed.len(), 1);
    let (watcher, NewBackedCandidate(backed)) = &node.backed[0];
    assert_eq!(*watcher, 99);
    assert_eq!(backed.candidate, candidate_a);
    assert_eq!(backed.validity_votes.len(), 2);
    assert!(backed.validity_votes.contains(&ValidityAttestation::Explicit(signed_b.signature)));
    assert!(backed.validity_votes.contains(&ValidityAttestation::Implicit(signed_a.signature)));
    assert_eq!(backed.validator_indices.to_vec(), vec![true, true, false]);

    node.stop();
}

// Issuing conflicting statements on the same candidate is a misbehavior.
#[test]
fn backing_misbehavior_works() {
    let mut node = Node::new();
    node.test_startup();
    let parent = node.state.relay_parent;
    let pov_block = pov(vec![1, 2, 3]);
    let candidate_a = candidate(&node.state, &pov_block);
    let signed_a = sign(&node.state, Statement::Seconded(candidate_a.clone()), 2);
    let signed_b = sign(&node.state, Statement::Valid(candidate_a.hash), 0);
    let signed_c = sign(&node.state, Statement::Invalid(candidate_a.hash), 0);

    node.communicate(CandidateBackingMessage::Statement(parent, signed_a));
    node.expect_fetch(&candidate_a, &pov_block);
    node.expect_validation(&candidate_a, &pov_block, ValidationResult::Valid);
    assert_eq!(node.expect_share().payload, Statement::Valid(candidate_a.hash));

    node.communicate(CandidateBackingMessage::Statement(parent, signed_b));
    assert!(node.outgoing.is_empty());
    node.communicate(CandidateBackingMessage::Statement(parent, signed_c.clone()));

    match node.recv() {
        AllMessages::Provisioner(ProvisionerMessage::ProvisionableData(
            ProvisionableData::MisbehaviorReport(
                relay_parent,
                MisbehaviorReport::SelfContradiction(_, s1, s2),
            ),
        )) => {
            assert_eq!(relay_parent, parent);
            assert!(check_signature(&node.state, &s1));
            assert!(check_signature(&node.state, &s2));
        }
        other => panic!("{:?}", other),
    }

    // The validator is not reported again.
    node.communicate(CandidateBackingMessage::Statement(parent, signed_c));
    assert!(node.outgoing.is_empty());
}

// If we are asked to second an invalid candidate we can still second a valid one afterwards.
#[test]
fn backing_dont_second_invalid() {
    let mut node = Node::new();
    node.test_startup();
    let parent = node.state.relay_parent;
    let pov_block_a = pov(vec![42, 43, 44]);
    let pov_block_b = pov(vec![45, 46, 47]);
    let candidate_a = candidate(&node.state, &pov_block_a);
    let candidate_b = candidate(&node.state, &pov_block_b);

    node.communicate(CandidateBackingMessage::Second(
        parent,
        candidate_a.clone(),
        pov_block_a.clone(),
    ));
    node.expect_validation(&candidate_a, &pov_block_a, ValidationResult::Invalid);
    assert_eq!(
        node.recv(),
        AllMessages::CandidateSelection(CandidateSelectionMessage::Invalid(
            parent,
            candidate_a.clone()
        ))
    );
    assert_eq!(node.expect_share().payload, Statement::Invalid(candidate_a.hash));
    assert_eq!(node.job.as_ref().unwrap().seconded(), None);

    node.communicate(CandidateBackingMessage::Second(
        parent,
        candidate_b.clone(),
        pov_block_b.clone(),
    ));
    node.expect_validation(&candidate_b, &pov_block_b, ValidationResult::Valid);
    node.expect_chunks();
    assert_eq!(node.expect_share().payload, Statement::Seconded(candidate_b));

    node.stop();
}

// If we have already issued a statement (in this case `Invalid`) about a candidate we will not be
// issuing a `Seconded` statement on it.
#[test]
fn backing_multiple_statements_work() {
    let mut node = Node::new();
    node.test_startup();
    let parent = node.state.relay_parent;
    let pov_block = pov(vec![42, 43, 44]);
    let candidate_x = candidate(&node.state, &pov_block);
    let signed_a = sign(&node.state, Statement::Seconded(candidate_x.clone()), 2);

    node.communicate(CandidateBackingMessage::Statement(parent, signed_a));
    node.expect_fetch(&candidate_x, &pov_block);
    node.expect_validation(&candidate_x, &pov_block, ValidationResult::Invalid);
    assert_eq!(node.expect_share().payload, Statement::Invalid(candidate_x.hash));

    // This emits no actions.
    node.communicate(CandidateBackingMessage::Second(parent, candidate_x, pov_block));

    let pov_to_second = pov(vec![3, 2, 1]);
    let candidate_to_second = candidate(&node.state, &pov_to_second);
    node.communicate(CandidateBackingMessage::Second(
        parent,
        candidate_to_second,
        pov_to_second.clone(),
    ));
    match node.recv() {
        AllMessages::CandidateValidation(CandidateValidationMessage::Validate(
            relay_parent,
            _,
            _,
            pov,
        )) => {
            assert_eq!(relay_parent, parent);
            assert_eq!(pov, pov_to_second);
        }
        other => panic!("{:?}", other),
    }
}

// An `Invalid` statement that was issued on a candidate that we were asked to second counts too.
#[test]
fn an_invalid_candidate_is_not_tried_again() {
    let mut node = Node::new();
    node.test_startup();
    let parent = node.state.relay_parent;
    let pov_block = pov(vec![42, 43, 44]);
    let candidate_a = candidate(&node.state, &pov_block);

    let second =
        |c: &Arc<AbridgedCandidateReceipt>| CandidateBackingMessage::Second(parent, c.clone(), pov_block.clone());
    node.communicate(second(&candidate_a));
    node.expect_validation(&candidate_a, &pov_block, ValidationResult::Invalid);
    node.outgoing.clear();
    node.communicate(second(&candidate_a));
    assert!(node.outgoing.is_empty());
}

// Without an identity no statement is issued, so that an invalid candidate can be tried again.
#[test]
fn an_invalid_candidate_is_tried_again_without_an_identity() {
    let mut node = Node::new();
    node.test_startup();
    let parent = node.state.relay_parent;
    let head_data = Arc::new(HeadData(node.state.head_data[&1].clone()));
    let context = TableContext {
        signing_context: node.state.signing_context,
        validator: None,
        groups: HashMap::new(),
        validators: node.state.validator_public.clone(),
    };
    node.job = Some(CandidateBackingJob::new(parent, head_data, 1, context));
    let pov_block = pov(vec![42, 43, 44]);
    let a = candidate(&node.state, &pov_block);

    for _ in 0..2 {
        let second = CandidateBackingMessage::Second(parent, a.clone(), pov_block.clone());
        node.communicate(second);
        node.expect_validation(&a, &pov_block, ValidationResult::Invalid);
        assert_eq!(
            node.recv(),
            AllMessages::CandidateSelection(CandidateSelectionMessage::Invalid(parent, a.clone()))
        );
        assert!(node.outgoing.is_empty());
        assert_eq!(node.job.as_ref().unwrap().seconded(), None);
    }

    // A valid one is taken down as seconded all the same.
    let pov_b = pov(vec![45]);
    let b = candidate(&node.state, &pov_b);
    node.communicate(CandidateBackingMessage::Second(parent, b.clone(), pov_b.clone()));
    node.expect_validation(&b, &pov_b, ValidationResult::Valid);
    node.expect_chunks();
    assert!(node.outgoing.is_empty());
    assert_eq!(node.job.as_ref().unwrap().seconded(), Some(b.hash));
}

// What one validator signs, the job of another node takes in.
#[test]
fn what_is_signed_is_accepted() {
    let mut node = Node::new();
    node.test_startup();
    let parent = node.state.relay_parent;
    let pov_block = pov(vec![42, 43, 44]);
    let a = candidate(&node.state, &pov_block);
    node.communicate(CandidateBackingMessage::Second(parent, a.clone(), pov_block.clone()));
    node.expect_validation(&a, &pov_block, ValidationResult::Valid);
    node.expect_chunks();
    let shared = node.expect_share();

    let mut other = Node::new();
    other.test_startup();
    other.communicate(CandidateBackingMessage::Statement(parent, shared.clone()));
    assert_eq!(other.finished, None);
    assert_eq!(other.table.statements.len(), 1);
    assert_eq!(other.table.statements[0], (0, 1, a.hash, shared.signature));
    other.expect_fetch(&a, &pov_block);

    // The same signature under another payload is refused.
    let mut forged = Node::new();
    forged.test_startup();
    let statement = SignedFullStatement { payload: Statement::Invalid(a.hash), ..shared };
    forged.communicate(CandidateBackingMessage::Statement(parent, statement));
    assert_eq!(forged.finished, Some(Err(Error::InvalidSignature)));
    assert!(forged.table.statements.is_empty());
}

#[test]
fn a_second_candidate_is_not_seconded() {
    let mut node = Node::new();
    node.test_startup();
    let parent = node.state.relay_parent;
    let pov_a = pov(vec![1]);
    let pov_b = pov(vec![2]);
    let a = candidate(&node.state, &pov_a);
    let b = candidate(&node.state, &pov_b);
    node.communicate(CandidateBackingMessage::Second(parent, a.clone(), pov_a.clone()));
    node.expect_validation(&a, &pov_a, ValidationResult::Valid);
    node.outgoing.clear();
    node.communicate(CandidateBackingMessage::Second(parent, b, pov_b));
    assert!(node.outgoing.is_empty());
    assert_eq!(node.job.as_ref().unwrap().seconded(), Some(a.hash));
}

#[test]
fn a_wrong_signature_ends_the_job() {
    let mut node = Node::new();
    node.test_startup();
    let parent = node.state.relay_parent;
    let mut statement = sign(&node.state, Statement::Valid(H256([8; 32])), 1);
    statement.signature.0[0] = 0;
    node.communicate(CandidateBackingMessage::Statement(parent, statement));
    assert_eq!(node.finished, Some(Err(Error::InvalidSignature)));
}

#[test]
fn an_unknown_validator_ends_the_job() {
    let mut node = Node::new();
    node.test_startup();
    let parent = node.state.relay_parent;
    let mut statement = sign(&node.state, Statement::Valid(H256([8; 32])), 1);
    statement.validator_index = 5;
    node.communicate(CandidateBackingMessage::Statement(parent, statement));
    assert_eq!(node.finished, Some(Err(Error::InvalidSignature)));
}

#[test]
fn what_goes_wrong_with_seconding_is_put_up_with() {
    for error in [
        Error::Mpsc,
        Error::Oneshot,
        Error::ValidationFailed("out of memory".to_string()),
    ] {
        let mut node = Node::new();
        node.test_startup();
        let parent = node.state.relay_parent;
        let pov_block = pov(vec![1]);
        let a = candidate(&node.state, &pov_block);
        let second = CandidateBackingMessage::Second(parent, a.clone(), pov_block.clone());
        node.communicate(second);
        node.recv();
        node.answer(Reply::Validation(Err(error)));
        assert_eq!(node.finished, None);
        // The candidate can be tried again.
        let second = CandidateBackingMessage::Second(parent, a.clone(), pov_block.clone());
        node.communicate(second);
        node.expect_validation(&a, &pov_block, ValidationResult::Valid);
        assert_eq!(node.job.as_ref().unwrap().seconded(), Some(a.hash));
    }
}

#[test]
fn what_goes_wrong_with_checking_ends_the_job() {
    let mut node = Node::new();
    node.test_startup();
    let parent = node.state.relay_parent;
    let pov_block = pov(vec![1]);
    let a = candidate(&node.state, &pov_block);
    let signed = sign(&node.state, Statement::Seconded(a), 2);
    node.communicate(CandidateBackingMessage::Statement(parent, signed));
    node.recv();
    node.answer(Reply::PoV(Err(Error::Oneshot)));
    assert_eq!(node.finished, Some(Err(Error::Oneshot)));
}

#[test]
fn a_candidate_of_another_parachain_is_not_checked() {
    let mut node = Node::new();
    node.test_startup();
    let parent = node.state.relay_parent;
    let pov_block = pov(vec![1]);
    let mut a = (*candidate(&node.state, &pov_block)).hash;
    a.0[0] = !a.0[0];
    let other = Arc::new(AbridgedCandidateReceipt {
        hash: a,
        parachain_index: 2,
        relay_parent: parent,
        pov_block_hash: H256([0; 32]),
    });
    let signed = sign(&node.state, Statement::Seconded(other), 1);
    node.communicate(CandidateBackingMessage::Statement(parent, signed));
    assert!(node.outgoing.is_empty());
    assert_eq!(node.finished, None);
}

#[test]
fn a_message_about_another_block_goes_nowhere() {
    let mut node = Node::new();
    node.test_startup();
    let statement = sign(&node.state, Statement::Valid(H256([8; 32])), 1);
    node.communicate(CandidateBackingMessage::Statement(H256([6; 32]), statement));
    assert!(node.table.statements.is_empty());
    assert!(!node.over);
}

#[test]
fn a_candidate_that_the_table_does_not_hold_ends_the_job() {
    let mut node = Node::new();
    node.test_startup();
    let pov_block = pov(vec![1]);
    let a = candidate(&node.state, &pov_block);
    let statement = sign(&node.state, Statement::Seconded(a.clone()), 2);
    let job = node.job.as_mut().unwrap();
    job.process_msg(CandidateBackingMessage::Statement(H256([5; 32]), statement));
    job.resume(Reply::SignatureCheck(true));
    job.resume(Reply::Imported {
        summary: Some(TableSummary { candidate: a.hash, group_id: 1 }),
        misbehaving: vec![],
    });
    job.resume(Reply::Reports(vec![]));
    match job.resume(Reply::Sent(Ok(()))) {
        Action::GetCandidate(hash) => assert_eq!(hash, a.hash),
        other => panic!("{:?}", other),
    }
    match job.resume(Reply::Candidate(None)) {
        Action::Finish(result) => assert_eq!(result, Err(Error::CandidateNotFound)),
        other => panic!("{:?}", other),
    }
}

#[test]
fn an_unknown_offender_is_not_acceptable() {
    let mut node = Node::new();
    node.test_startup();
    let statement = sign(&node.state, Statement::Valid(H256([8; 32])), 1);
    let job = node.job.as_mut().unwrap();
    job.process_msg(CandidateBackingMessage::Statement(H256([5; 32]), statement));
    job.resume(Reply::SignatureCheck(true));
    assert!(!job.accepts(&Reply::Imported { summary: None, misbehaving: vec![4, 5] }));
    assert!(job.accepts(&Reply::Imported { summary: None, misbehaving: vec![4, 0] }));
    assert!(!job.accepts(&Reply::Sent(Ok(()))));
    match job.resume(Reply::Imported { summary: None, misbehaving: vec![4, 0, 4] }) {
        Action::BuildReports(records) => {
            let ids: Vec<_> = records.iter().map(|r| r.id).collect();
            assert_eq!(ids, vec![4, 0]);
            assert_eq!(records[0].key, ValidatorId([FERDIE; 32]));
        }
        other => panic!("{:?}", other),
    }
    // There is something to be said of each record, and of nothing else.
    assert!(!job.accepts(&Reply::Reports(vec![None])));
    assert!(!job.accepts(&Reply::Reports(vec![None, None, None])));
    assert!(job.accepts(&Reply::Reports(vec![None, None])));
}

#[test]
fn a_closed_channel_ends_the_job_well() {
    let mut node = Node::new();
    node.test_startup();
    match node.job.as_mut().unwrap().run(None) {
        Action::Finish(result) => assert_eq!(result, Ok(())),
        other => panic!("{:?}", other),
    }
}

#[test]
fn the_subsystem_keeps_what_it_was_given() {
    let subsystem = CandidateBackingSubsystem::new("keys", 4);
    assert_eq!(subsystem.into_parts(), ("keys", 4));
}
