//! The protocol of a backing job: what it asks of its host, what the host answers, and what the
//! job makes of the answer.
use std::sync::Arc;

use vstd::prelude::*;

use crate::availability::chunk_messages;
use crate::backed::{backed_views, BackedView};
use crate::error::Error;
use crate::messages::{
    CandidateBackingMessage, CandidateSelectionMessage, CandidateValidationMessage, FromJob,
    NewBackedCandidate, PoVDistributionMessage, StatementDistributionMessage, ToJob, WatcherId,
};
use crate::misbehavior::{
    misbehavior_records, new_offenders, offenders_known, report_messages, FromTableMisbehavior,
};
use crate::primitives::{
    AbridgedCandidateReceipt, AvailableData, GlobalValidationSchedule, H256, HeadData,
    LocalValidationData, MisbehaviorReport, OmittedValidationData, ParaId, PoVBlock,
    SignedFullStatement, SigningContext, Statement, ValidationResult, ValidatorId, ValidatorIndex,
    ValidatorSignature,
};
use crate::table::{
    table_statement, TableAttestedCandidate, TableContext, TableSignedStatement, TableSummary,
};

verus! {

/// A piece of outside work that the host is to do for a job.
#[derive(Debug)]
pub enum Action {
    /// Wait for the next message to the job.
    Receive,
    /// Send the messages in order, up to the first that cannot be sent.
    Send(Vec<FromJob>),
    /// Send the message with an answer channel, and wait for the answer.
    Request(FromJob),
    /// Erasure code the data into one chunk for each validator.
    ObtainChunks { n_validators: usize, available_data: AvailableData },
    /// Sign the statement with the key of this node.
    Sign(Statement),
    /// Check the signature of the statement against the key.
    CheckSignature {
        signing_context: SigningContext,
        key: ValidatorId,
        statement: SignedFullStatement,
    },
    /// Import the statement into the table, and look up who misbehaves by the table.
    Import(TableSignedStatement),
    /// Draw up a report for each of the records from the evidence in the table.
    BuildReports(Vec<FromTableMisbehavior>),
    /// Look up the candidate in the table.
    GetCandidate(H256),
    /// Look up the candidates that have enough votes in the table.
    GetProposed,
    /// Send the backed candidates to the watcher in order, up to the first that cannot be sent.
    SendBacked { watcher: WatcherId, backed: Vec<NewBackedCandidate> },
    /// The job is over.
    Finish(Result<(), Error>),
}

/// What the host has to say of the work that it was asked to do.
#[derive(Debug)]
pub enum Reply {
    /// Whether all the messages could be sent.
    Sent(Result<(), Error>),
    /// The outcome of the validation, and the data that it was made with.
    Validation(Result<(ValidationResult, GlobalValidationSchedule, LocalValidationData), Error>),
    /// The chunks, and the proof of each.
    Chunks(Result<(Vec<Vec<u8>>, Vec<Vec<Vec<u8>>>), Error>),
    /// The signature under the statement.
    Signature(ValidatorSignature),
    /// Whether the signature matches.
    SignatureCheck(bool),
    /// What the table holds of the candidate now, and who misbehaves.
    Imported { summary: Option<TableSummary>, misbehaving: Vec<ValidatorIndex> },
    /// The report for each of the records, where there is one to be made.
    Reports(Vec<Option<MisbehaviorReport>>),
    /// The candidate, where the table holds it.
    Candidate(Option<Arc<AbridgedCandidateReceipt>>),
    /// The proof of validity.
    PoV(Result<Arc<PoVBlock>, Error>),
    /// The candidates with enough votes.
    Proposed(Vec<TableAttestedCandidate>),
}

/// On whose behalf a statement is imported.
#[derive(Debug)]
pub enum ImportPurpose {
    /// The statement is our own, on a candidate that we were asked to second.
    Second { signed: SignedFullStatement, candidate_hash: H256, valid: ValidationResult },
    /// The statement has come over the network.
    Statement { statement: SignedFullStatement },
}

/// How far a job has come with the message at hand.
#[allow(inconsistent_fields)]
#[derive(Debug)]
pub enum Phase {
    /// There is no message at hand.
    Idle,
    /// Asked to second: the candidate is being validated.
    SecondValidation { candidate: Arc<AbridgedCandidateReceipt>, pov: Arc<PoVBlock> },
    /// Asked to second, and valid: the data is being erasure coded.
    SecondChunks { candidate: Arc<AbridgedCandidateReceipt> },
    /// Asked to second, and valid: the chunks are being stored.
    SecondStore { candidate: Arc<AbridgedCandidateReceipt> },
    /// Asked to second, and invalid: candidate selection is being told.
    SecondInvalid { candidate_hash: H256 },
    /// Asked to second: our statement is being signed.
    SecondSign { statement: Statement, candidate_hash: H256, valid: ValidationResult },
    /// Asked to second: our statement is being spread.
    SecondShare { candidate_hash: H256, valid: ValidationResult },
    /// A statement has come: its signature is being checked.
    StatementCheck { statement: SignedFullStatement },
    /// A statement is being imported.
    Import { purpose: ImportPurpose },
    /// After an import: reports are being drawn up from so many records.
    Reports { purpose: ImportPurpose, summary: Option<TableSummary>, n_records: usize },
    /// After an import: reports are being sent.
    ReportsSent { purpose: ImportPurpose, summary: Option<TableSummary> },
    /// A candidate was seconded in our group: it is being looked up.
    KickOffCandidate,
    /// A candidate was seconded in our group: its proof of validity is being fetched.
    KickOffPoV { candidate: Arc<AbridgedCandidateReceipt> },
    /// A candidate was seconded in our group: it is being validated.
    KickOffValidation { candidate_hash: H256 },
    /// A candidate was seconded in our group: our statement is being signed.
    KickOffSign { statement: Statement },
    /// A candidate was seconded in our group: our statement is being spread.
    KickOffShare,
    /// A watcher has come: the backed candidates are being looked up.
    WatchProposed { watcher: WatcherId },
    /// A watcher has come: the backed candidates are being sent.
    WatchSend,
    /// The job is over.
    Finished,
}

/// An action as a mathematical value.
pub ghost enum ActionView {
    Receive,
    Send(Seq<FromJob>),
    Request(FromJob),
    ObtainChunks { n_validators: nat, available_data: AvailableData },
    Sign(Statement),
    CheckSignature {
        signing_context: SigningContext,
        key: ValidatorId,
        statement: SignedFullStatement,
    },
    Import(TableSignedStatement),
    BuildReports(Seq<FromTableMisbehavior>),
    GetCandidate(H256),
    GetProposed,
    SendBacked { watcher: WatcherId, backed: Seq<BackedView> },
    Finish(Result<(), Error>),
}

impl View for Action {
    type V = ActionView;

    open spec fn view(&self) -> ActionView {
        match self {
            Action::Receive => ActionView::Receive,
            Action::Send(messages) => ActionView::Send(messages@),
            Action::Request(message) => ActionView::Request(*message),
            Action::ObtainChunks { n_validators, available_data } => ActionView::ObtainChunks {
                n_validators: *n_validators as nat,
                available_data: *available_data,
            },
            Action::Sign(statement) => ActionView::Sign(*statement),
            Action::CheckSignature { signing_context, key, statement } => {
                ActionView::CheckSignature {
                    signing_context: *signing_context,
                    key: *key,
                    statement: *statement,
                }
            },
            Action::Import(statement) => ActionView::Import(*statement),
            Action::BuildReports(records) => ActionView::BuildReports(records@),
            Action::GetCandidate(hash) => ActionView::GetCandidate(*hash),
            Action::GetProposed => ActionView::GetProposed,
            Action::SendBacked { watcher, backed } => ActionView::SendBacked {
                watcher: *watcher,
                backed: backed@.map_values(|b: NewBackedCandidate| b@),
            },
            Action::Finish(result) => ActionView::Finish(*result),
        }
    }
}

/// What stays the same over the life of a job.
pub ghost struct JobEnv {
    /// The relay chain block that the job works on.
    pub parent: H256,
    /// The head of the parachain that this node is assigned to.
    pub head_data: Arc<HeadData>,
    /// The parachain that this node is assigned to.
    pub assignment: ParaId,
    /// What the statement table knows of the validators.
    pub table_context: TableContext,
}

/// What changes over the life of a job.
pub ghost struct JobState {
    /// The candidates that we have issued a statement on.
    pub issued_validity: Set<H256>,
    /// The candidate that we have seconded.
    pub seconded: Option<H256>,
    /// The validators that we have reported.
    pub reported_misbehavior_for: Set<ValidatorIndex>,
    /// How far we have come with the message at hand.
    pub phase: Phase,
}

/// The state of a job after a step, and what it asks of its host.
pub ghost struct JobStep {
    pub state: JobState,
    pub action: ActionView,
}

impl JobState {
    /// The state of a job that has just begun.
    pub open spec fn initial() -> JobState {
        JobState {
            issued_validity: Set::empty(),
            seconded: None,
            reported_misbehavior_for: Set::empty(),
            phase: Phase::Idle,
        }
    }

    /// The same state at another point of the protocol, where the host has work to do.
    pub open spec fn asks(self, phase: Phase, action: ActionView) -> JobStep {
        JobStep { state: JobState { phase, ..self }, action }
    }

    /// The message at hand is done with.
    pub open spec fn done(self) -> JobStep {
        self.asks(Phase::Idle, ActionView::Receive)
    }

    /// The job ends.
    pub open spec fn finish(self, result: Result<(), Error>) -> JobStep {
        self.asks(Phase::Finished, ActionView::Finish(result))
    }

    /// A statement on the candidate is issued.
    pub open spec fn issue(self, candidate_hash: H256) -> JobState {
        JobState { issued_validity: self.issued_validity.insert(candidate_hash), ..self }
    }
}

/// The request to validate a candidate on top of the head of our parachain.
pub open spec fn validation_request(
    env: JobEnv,
    candidate: Arc<AbridgedCandidateReceipt>,
    pov: Arc<PoVBlock>,
) -> FromJob {
    FromJob::CandidateValidation(
        CandidateValidationMessage::Validate(env.parent, candidate, env.head_data, pov),
    )
}

/// The request for the proof of validity of a candidate.
pub open spec fn pov_request(env: JobEnv, candidate: Arc<AbridgedCandidateReceipt>) -> FromJob {
    FromJob::PoVDistribution(PoVDistributionMessage::FetchPoV(env.parent, candidate))
}

/// The notice that a candidate is invalid.
pub open spec fn invalid_notice(env: JobEnv, candidate: Arc<AbridgedCandidateReceipt>) -> FromJob {
    FromJob::CandidateSelection(CandidateSelectionMessage::Invalid(env.parent, candidate))
}

/// The message that has our statement spread.
pub open spec fn share_message(env: JobEnv, signed: SignedFullStatement) -> FromJob {
    FromJob::StatementDistribution(StatementDistributionMessage::Share(env.parent, signed))
}

/// A statement of this node with its signature.
pub open spec fn signed_by_us(
    env: JobEnv,
    statement: Statement,
    signature: ValidatorSignature,
) -> SignedFullStatement {
    SignedFullStatement {
        payload: statement,
        validator_index: env.table_context.validator->0.index,
        signature,
    }
}

/// The verdict on a candidate as a statement.
pub open spec fn verdict(valid: ValidationResult, candidate_hash: H256) -> Statement {
    match valid {
        ValidationResult::Valid => Statement::Valid(candidate_hash),
        ValidationResult::Invalid => Statement::Invalid(candidate_hash),
    }
}

/// A request to second a candidate: it is validated, unless we have seconded a candidate before or
/// have issued a statement on this one.
pub open spec fn on_second(
    env: JobEnv,
    s: JobState,
    candidate: Arc<AbridgedCandidateReceipt>,
    pov: Arc<PoVBlock>,
) -> JobStep {
    if s.seconded is None && !s.issued_validity.contains(candidate.hash) {
        s.asks(
            Phase::SecondValidation { candidate, pov },
            ActionView::Request(validation_request(env, candidate, pov)),
        )
    } else {
        s.done()
    }
}

/// A statement of another validator: its signature is checked against the key of the validator. A
/// validator that is not in the set ends the job.
pub open spec fn on_statement(env: JobEnv, s: JobState, statement: SignedFullStatement) -> JobStep {
    if statement.validator_index < env.table_context.validators@.len() {
        s.asks(
            Phase::StatementCheck { statement },
            ActionView::CheckSignature {
                signing_context: env.table_context.signing_context,
                key: env.table_context.validators@[statement.validator_index as int],
                statement,
            },
        )
    } else {
        s.finish(Err(Error::InvalidSignature))
    }
}

/// What a job makes of a message.
pub open spec fn on_message(env: JobEnv, s: JobState, msg: CandidateBackingMessage) -> JobStep {
    match msg {
        CandidateBackingMessage::Second(_, candidate, pov) => on_second(env, s, candidate, pov),
        CandidateBackingMessage::Statement(_, statement) => on_statement(env, s, statement),
        CandidateBackingMessage::RegisterBackingWatcher(_, watcher) => s.asks(
            Phase::WatchProposed { watcher },
            ActionView::GetProposed,
        ),
    }
}

/// What a job makes of what has come in: it ends when it is told to, or when nothing can come any
/// more.
pub open spec fn on_received(env: JobEnv, s: JobState, received: Option<ToJob>) -> JobStep {
    match received {
        Some(ToJob::CandidateBacking(msg)) => on_message(env, s, msg),
        _ => s.finish(Ok(())),
    }
}

/// The end of a request to second: the candidate is taken down as seconded if it was valid.
pub open spec fn second_over(
    s: JobState,
    candidate_hash: H256,
    valid: ValidationResult,
) -> JobStep {
    match valid {
        ValidationResult::Valid => (JobState { seconded: Some(candidate_hash), ..s }).done(),
        ValidationResult::Invalid => s.done(),
    }
}

/// Our statement on a candidate that we were asked to second: it is signed, if this node is a
/// validator.
pub open spec fn second_sign(
    env: JobEnv,
    s: JobState,
    statement: Statement,
    candidate_hash: H256,
    valid: ValidationResult,
) -> JobStep {
    if env.table_context.validator is Some {
        s.asks(
            Phase::SecondSign { statement, candidate_hash, valid },
            ActionView::Sign(statement),
        )
    } else {
        second_over(s, candidate_hash, valid)
    }
}

/// A candidate that we were asked to second is validated: the data of a valid one is made
/// available, and candidate selection is told of an invalid one.
pub open spec fn second_validated(
    env: JobEnv,
    s: JobState,
    candidate: Arc<AbridgedCandidateReceipt>,
    pov: Arc<PoVBlock>,
    valid: ValidationResult,
    global_validation: GlobalValidationSchedule,
    local_validation: LocalValidationData,
) -> JobStep {
    match valid {
        ValidationResult::Valid => s.asks(
            Phase::SecondChunks { candidate },
            ActionView::ObtainChunks {
                n_validators: env.table_context.validators@.len(),
                available_data: AvailableData {
                    pov_block: pov,
                    omitted_validation: OmittedValidationData {
                        global_validation,
                        local_validation,
                    },
                },
            },
        ),
        ValidationResult::Invalid => s.asks(
            Phase::SecondInvalid { candidate_hash: candidate.hash },
            ActionView::Send(seq![invalid_notice(env, candidate)]),
        ),
    }
}

/// A statement is to be imported.
pub open spec fn import(
    s: JobState,
    purpose: ImportPurpose,
    statement: SignedFullStatement,
) -> JobStep {
    s.asks(Phase::Import { purpose }, ActionView::Import(table_statement(statement)))
}

/// A statement is imported: reports are drawn up on those who misbehave and have not been reported.
pub open spec fn imported(
    env: JobEnv,
    s: JobState,
    purpose: ImportPurpose,
    summary: Option<TableSummary>,
    misbehaving: Seq<ValidatorIndex>,
) -> JobStep {
    let offenders = new_offenders(misbehaving, s.reported_misbehavior_for);
    (JobState {
        reported_misbehavior_for: s.reported_misbehavior_for.union(misbehaving.to_set()),
        ..s
    }).asks(
        Phase::Reports { purpose, summary, n_records: offenders.len() as usize },
        ActionView::BuildReports(misbehavior_records(env.table_context, offenders)),
    )
}

/// A statement from the network is imported: where it seconds a candidate of the parachain that we
/// are assigned to, we set out to validate the candidate ourselves.
pub open spec fn statement_imported(
    env: JobEnv,
    s: JobState,
    statement: SignedFullStatement,
    summary: Option<TableSummary>,
) -> JobStep {
    match (summary, statement.payload) {
        (Some(summary), Statement::Seconded(_)) if summary.group_id == env.assignment => s.asks(
            Phase::KickOffCandidate,
            ActionView::GetCandidate(summary.candidate),
        ),
        _ => s.done(),
    }
}

/// Our verdict on a candidate that was seconded in our group: a statement on it is issued, and
/// signed if this node is a validator.
pub open spec fn kick_off_validated(
    env: JobEnv,
    s: JobState,
    candidate_hash: H256,
    valid: ValidationResult,
) -> JobStep {
    let statement = verdict(valid, candidate_hash);
    if env.table_context.validator is Some {
        s.issue(candidate_hash).asks(
            Phase::KickOffSign { statement },
            ActionView::Sign(statement),
        )
    } else {
        s.issue(candidate_hash).done()
    }
}

/// Whether the reply answers what the job has asked for.
pub open spec fn expects(phase: Phase, reply: Reply) -> bool {
    match phase {
        Phase::Idle => false,
        Phase::SecondValidation { .. } => reply is Validation,
        Phase::SecondChunks { .. } => reply is Chunks,
        Phase::SecondStore { .. } => reply is Sent,
        Phase::SecondInvalid { .. } => reply is Sent,
        Phase::SecondSign { .. } => reply is Signature,
        Phase::SecondShare { .. } => reply is Sent,
        Phase::StatementCheck { .. } => reply is SignatureCheck,
        Phase::Import { .. } => reply is Imported,
        Phase::Reports { .. } => reply is Reports,
        Phase::ReportsSent { .. } => reply is Sent,
        Phase::KickOffCandidate => reply is Candidate,
        Phase::KickOffPoV { .. } => reply is PoV,
        Phase::KickOffValidation { .. } => reply is Validation,
        Phase::KickOffSign { .. } => reply is Signature,
        Phase::KickOffShare => reply is Sent,
        Phase::WatchProposed { .. } => reply is Proposed,
        Phase::WatchSend => reply is Sent,
        Phase::Finished => false,
    }
}

/// Whether the reply is one that the host can give: it answers what was asked for, accuses nobody
/// who is not in the validator set, and has something to say of each record.
pub open spec fn acceptable(env: JobEnv, s: JobState, reply: Reply) -> bool {
    &&& expects(s.phase, reply)
    &&& reply matches Reply::Imported { misbehaving, .. } ==> offenders_known(
        env.table_context,
        misbehaving@,
        s.reported_misbehavior_for,
    )
    &&& (s.phase, reply) matches (Phase::Reports { n_records, .. }, Reply::Reports(reports))
        ==> reports@.len() == n_records
}

/// What a job makes of a reply. What goes wrong with a request to second ends that request, and
/// what goes wrong otherwise ends the job.
pub open spec fn on_reply(env: JobEnv, s: JobState, reply: Reply) -> JobStep {
    match (s.phase, reply) {
        (Phase::SecondValidation { candidate, pov }, Reply::Validation(result)) => match result {
            Ok((valid, global, local)) => second_validated(
                env,
                s,
                candidate,
                pov,
                valid,
                global,
                local,
            ),
            Err(_) => s.done(),
        },
        (Phase::SecondChunks { candidate }, Reply::Chunks(result)) => match result {
            Ok((chunks, proofs)) => s.asks(
                Phase::SecondStore { candidate },
                ActionView::Send(chunk_messages(env.parent, chunks@, proofs@)),
            ),
            Err(_) => s.done(),
        },
        (Phase::SecondStore { candidate }, Reply::Sent(result)) => match result {
            Ok(()) => second_sign(
                env,
                s.issue(candidate.hash),
                Statement::Seconded(candidate),
                candidate.hash,
                ValidationResult::Valid,
            ),
            Err(_) => s.done(),
        },
        (Phase::SecondInvalid { candidate_hash }, Reply::Sent(result)) => match result {
            Ok(()) => second_sign(
                env,
                if env.table_context.validator is Some {
                    s.issue(candidate_hash)
                } else {
                    s
                },
                Statement::Invalid(candidate_hash),
                candidate_hash,
                ValidationResult::Invalid,
            ),
            Err(_) => s.done(),
        },
        (Phase::SecondSign { statement, candidate_hash, valid }, Reply::Signature(signature)) => {
            let signed = signed_by_us(env, statement, signature);
            import(s, ImportPurpose::Second { signed, candidate_hash, valid }, signed)
        },
        (Phase::SecondShare { candidate_hash, valid }, Reply::Sent(result)) => match result {
            Ok(()) => second_over(s, candidate_hash, valid),
            Err(_) => s.done(),
        },
        (Phase::StatementCheck { statement }, Reply::SignatureCheck(matches)) => {
            if matches {
                import(s, ImportPurpose::Statement { statement }, statement)
            } else {
                s.finish(Err(Error::InvalidSignature))
            }
        },
        (Phase::Import { purpose }, Reply::Imported { summary, misbehaving }) => imported(
            env,
            s,
            purpose,
            summary,
            misbehaving@,
        ),
        (Phase::Reports { purpose, summary, .. }, Reply::Reports(reports)) => s.asks(
            Phase::ReportsSent { purpose, summary },
            ActionView::Send(report_messages(env.parent, reports@)),
        ),
        (Phase::ReportsSent { purpose, summary }, Reply::Sent(result)) => match (purpose, result) {
            (ImportPurpose::Second { signed, candidate_hash, valid }, Ok(())) => s.asks(
                Phase::SecondShare { candidate_hash, valid },
                ActionView::Send(seq![share_message(env, signed)]),
            ),
            (ImportPurpose::Second { .. }, Err(_)) => s.done(),
            (ImportPurpose::Statement { statement }, Ok(())) => statement_imported(
                env,
                s,
                statement,
                summary,
            ),
            (ImportPurpose::Statement { .. }, Err(e)) => s.finish(Err(e)),
        },
        (Phase::KickOffCandidate, Reply::Candidate(found)) => match found {
            Some(candidate) => s.asks(
                Phase::KickOffPoV { candidate },
                ActionView::Request(pov_request(env, candidate)),
            ),
            None => s.finish(Err(Error::CandidateNotFound)),
        },
        (Phase::KickOffPoV { candidate }, Reply::PoV(result)) => match result {
            Ok(pov) => s.asks(
                Phase::KickOffValidation { candidate_hash: candidate.hash },
                ActionView::Request(validation_request(env, candidate, pov)),
            ),
            Err(e) => s.finish(Err(e)),
        },
        (Phase::KickOffValidation { candidate_hash }, Reply::Validation(result)) => match result {
            Ok((valid, _, _)) => kick_off_validated(env, s, candidate_hash, valid),
            Err(e) => s.finish(Err(e)),
        },
        (Phase::KickOffSign { statement }, Reply::Signature(signature)) => s.asks(
            Phase::KickOffShare,
            ActionView::Send(seq![share_message(env, signed_by_us(env, statement, signature))]),
        ),
        (Phase::KickOffShare, Reply::Sent(result)) => match result {
            Ok(()) => s.done(),
            Err(e) => s.finish(Err(e)),
        },
        (Phase::WatchProposed { watcher }, Reply::Proposed(proposed)) => s.asks(
            Phase::WatchSend,
            ActionView::SendBacked {
                watcher,
                backed: backed_views(proposed@, env.table_context.group(env.assignment)),
            },
        ),
        (Phase::WatchSend, Reply::Sent(result)) => match result {
            Ok(()) => s.done(),
            Err(e) => s.finish(Err(e)),
        },
        _ => s.done(),
    }
}

} // verus!
