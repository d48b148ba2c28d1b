//! A backing job.
use std::collections::HashSet;
use std::sync::Arc;

use vstd::pervasive::unreached;
use vstd::prelude::*;

use crate::availability::make_pov_available;
use crate::backed::get_backed;
use crate::digests::DigestSet;
use crate::error::Error;
use crate::messages::{
    CandidateBackingMessage, CandidateSelectionMessage, CandidateValidationMessage, FromJob,
    PoVDistributionMessage, StatementDistributionMessage, ToJob,
};
use crate::misbehavior::{issue_new_misbehaviors, offenders_known, send_reports};
use crate::primitives::{
    AbridgedCandidateReceipt, AvailableData, GlobalValidationSchedule, H256, HeadData,
    LocalValidationData, OmittedValidationData, ParaId, PoVBlock, SignedFullStatement, Statement,
    ValidationResult, ValidatorIndex, ValidatorSignature,
};
use crate::protocol::{
    acceptable, invalid_notice, kick_off_validated, on_message, on_received, on_reply, on_second,
    on_statement, pov_request, second_over, second_sign, second_validated, share_message,
    signed_by_us, statement_imported, validation_request, Action, ActionView, ImportPurpose, JobEnv,
    JobState, JobStep, Phase, Reply,
};
use crate::table::{primitive_statement_to_table, TableContext, TableSummary};

verus! {

broadcast use vstd::std_specs::hash::group_hash_axioms;

/// All that a backing job knows.
pub struct CandidateBackingJob {
    /// The hash of the relay parent on top of which this job is doing its work.
    parent: H256,
    /// The head of the parachain that this node is assigned to.
    head_data: Arc<HeadData>,
    /// The parachain that this node is assigned to.
    assignment: ParaId,
    /// We have issued statements on these candidates.
    issued_validity: DigestSet,
    /// `Some(h)` if this job has already seconded the candidate with the hash `h`.
    seconded: Option<H256>,
    /// We have already reported misbehaviors for these validators.
    reported_misbehavior_for: HashSet<ValidatorIndex>,
    /// What the statement table knows of the validators.
    table_context: TableContext,
    /// How far the job has come with the message at hand.
    phase: Phase,
}

impl View for CandidateBackingJob {
    type V = JobState;

    closed spec fn view(&self) -> JobState {
        JobState {
            issued_validity: self.issued_validity@,
            seconded: self.seconded,
            reported_misbehavior_for: self.reported_misbehavior_for@,
            phase: self.phase,
        }
    }
}

impl CandidateBackingJob {
    /// What stays the same over the life of the job.
    pub closed spec fn env(self) -> JobEnv {
        JobEnv {
            parent: self.parent,
            head_data: self.head_data,
            assignment: self.assignment,
            table_context: self.table_context,
        }
    }

    /// A signature is only waited for where this node is a validator, and groups are small enough
    /// for a bit to be kept for each member.
    pub closed spec fn wf(self) -> bool {
        &&& self.issued_validity.wf()
        &&& self.table_context.groups_fit()
        &&& self.phase is SecondSign || self.phase is KickOffSign
            ==> self.table_context.validator is Some
    }

    /// A job that has seen no message yet.
    pub fn new(
        parent: H256,
        head_data: Arc<HeadData>,
        assignment: ParaId,
        table_context: TableContext,
    ) -> (job: Self)
        requires
            table_context.groups_fit(),
        ensures
            job.wf(),
            job.env() == (JobEnv { parent, head_data, assignment, table_context }),
            job@ == JobState::initial(),
    {
        CandidateBackingJob {
            parent,
            head_data,
            assignment,
            issued_validity: DigestSet::new(),
            seconded: None,
            reported_misbehavior_for: HashSet::new(),
            table_context,
            phase: Phase::Idle,
        }
    }

    /// The validators and groups that the job works with.
    pub fn table_context(&self) -> (table_context: &TableContext)
        ensures
            *table_context == self.env().table_context,
    {
        &self.table_context
    }

    /// The candidate that the job has seconded.
    pub fn seconded(&self) -> (seconded: Option<H256>)
        ensures
            seconded == self@.seconded,
    {
        self.seconded
    }

    /// The step to another point of the protocol.
    fn ask(&mut self, phase: Phase, action: Action) -> (next: Action)
        requires
            old(self).issued_validity.wf(),
            old(self).table_context.groups_fit(),
            phase is SecondSign || phase is KickOffSign
                ==> old(self).table_context.validator is Some,
        ensures
            final(self).wf(),
            final(self).env() == old(self).env(),
            (JobStep { state: final(self)@, action: next@ }) == old(self)@.asks(phase, action@),
    {
        self.phase = phase;
        action
    }

    fn done(&mut self) -> (next: Action)
        requires
            old(self).issued_validity.wf(),
            old(self).table_context.groups_fit(),
        ensures
            final(self).wf(),
            final(self).env() == old(self).env(),
            (JobStep { state: final(self)@, action: next@ }) == old(self)@.done(),
    {
        self.ask(Phase::Idle, Action::Receive)
    }

    fn finish(&mut self, result: Result<(), Error>) -> (next: Action)
        requires
            old(self).issued_validity.wf(),
            old(self).table_context.groups_fit(),
        ensures
            final(self).wf(),
            final(self).env() == old(self).env(),
            (JobStep { state: final(self)@, action: next@ }) == old(self)@.finish(result),
    {
        self.ask(Phase::Finished, Action::Finish(result))
    }

    fn send_one(message: FromJob) -> (action: Action)
        ensures
            action@ == ActionView::Send(seq![message]),
    {
        let mut messages: Vec<FromJob> = Vec::new();
        messages.push(message);
        assert(messages@ =~= seq![message]);
        Action::Send(messages)
    }

    /// Takes what has come in over the channel of the job; `None` when the channel is closed.
    pub fn run(&mut self, received: Option<ToJob>) -> (next: Action)
        requires
            old(self).wf(),
            old(self)@.phase is Idle,
        ensures
            final(self).wf(),
            final(self).env() == old(self).env(),
            (JobStep { state: final(self)@, action: next@ }) == on_received(
                old(self).env(),
                old(self)@,
                received,
            ),
    {
        match received {
            Some(ToJob::CandidateBacking(msg)) => self.process_msg(msg),
            Some(ToJob::Stop) => self.finish(Ok(())),
            None => self.finish(Ok(())),
        }
    }

    /// Takes up a message.
    pub fn process_msg(&mut self, msg: CandidateBackingMessage) -> (next: Action)
        requires
            old(self).wf(),
            old(self)@.phase is Idle,
        ensures
            final(self).wf(),
            final(self).env() == old(self).env(),
            (JobStep { state: final(self)@, action: next@ }) == on_message(
                old(self).env(),
                old(self)@,
                msg,
            ),
    {
        match msg {
            CandidateBackingMessage::Second(_, candidate, pov) => self.second(candidate, pov),
            CandidateBackingMessage::Statement(_, statement) => self.check_statement_signature(
                statement,
            ),
            CandidateBackingMessage::RegisterBackingWatcher(_, watcher) => self.ask(
                Phase::WatchProposed { watcher },
                Action::GetProposed,
            ),
        }
    }

    /// Sets out to second a candidate, if no candidate has been seconded yet and no statement has
    /// been issued on this one.
    fn second(&mut self, candidate: Arc<AbridgedCandidateReceipt>, pov: Arc<PoVBlock>) -> (next:
        Action)
        requires
            old(self).wf(),
        ensures
            final(self).wf(),
            final(self).env() == old(self).env(),
            (JobStep { state: final(self)@, action: next@ }) == on_second(
                old(self).env(),
                old(self)@,
                candidate,
                pov,
            ),
    {
        match self.seconded {
            // This job has not seconded a candidate yet.
            None => {
                let candidate_hash = candidate.hash();
                if !self.issued_validity.contains(&candidate_hash) {
                    let request = self.request_candidate_validation(candidate.clone(), pov.clone());
                    self.ask(
                        Phase::SecondValidation { candidate, pov },
                        Action::Request(request),
                    )
                } else {
                    self.done()
                }
            },
            // This job has already seconded a candidate.
            Some(_) => self.done(),
        }
    }

    /// Has the signature of a statement checked against the key of its sender.
    fn check_statement_signature(&mut self, statement: SignedFullStatement) -> (next: Action)
        requires
            old(self).wf(),
        ensures
            final(self).wf(),
            final(self).env() == old(self).env(),
            (JobStep { state: final(self)@, action: next@ }) == on_statement(
                old(self).env(),
                old(self)@,
                statement,
            ),
    {
        let idx = statement.validator_index as usize;
        if self.table_context.validators.len() > idx {
            let signing_context = self.table_context.signing_context;
            let key = self.table_context.validators[idx];
            let copy = statement.clone();
            self.ask(
                Phase::StatementCheck { statement },
                Action::CheckSignature { signing_context, key, statement: copy },
            )
        } else {
            self.finish(Err(Error::InvalidSignature))
        }
    }

    fn request_candidate_validation(
        &self,
        candidate: Arc<AbridgedCandidateReceipt>,
        pov: Arc<PoVBlock>,
    ) -> (request: FromJob)
        ensures
            request == validation_request(self.env(), candidate, pov),
    {
        FromJob::CandidateValidation(
            CandidateValidationMessage::Validate(
                self.parent,
                candidate,
                self.head_data.clone(),
                pov,
            ),
        )
    }

    fn request_pov_from_distribution(&self, candidate: Arc<AbridgedCandidateReceipt>) -> (request:
        FromJob)
        ensures
            request == pov_request(self.env(), candidate),
    {
        FromJob::PoVDistribution(PoVDistributionMessage::FetchPoV(self.parent, candidate))
    }

    fn issue_candidate_invalid_message(&self, candidate: Arc<AbridgedCandidateReceipt>) -> (action:
        Action)
        ensures
            action@ == ActionView::Send(seq![invalid_notice(self.env(), candidate)]),
    {
        Self::send_one(
            FromJob::CandidateSelection(
                CandidateSelectionMessage::Invalid(self.parent, candidate),
            ),
        )
    }

    fn distribute_signed_statement(&self, signed: SignedFullStatement) -> (action: Action)
        ensures
            action@ == ActionView::Send(seq![share_message(self.env(), signed)]),
    {
        Self::send_one(
            FromJob::StatementDistribution(
                StatementDistributionMessage::Share(self.parent, signed),
            ),
        )
    }

    /// Puts the signature of this node under a statement.
    fn with_signature(&self, statement: Statement, signature: ValidatorSignature) -> (signed:
        SignedFullStatement)
        requires
            self.table_context.validator is Some,
        ensures
            signed == signed_by_us(self.env(), statement, signature),
    {
        match &self.table_context.validator {
            Some(validator) => SignedFullStatement {
                payload: statement,
                validator_index: validator.index,
                signature,
            },
            None => unreached(),
        }
    }

    /// Whether the reply answers what the job has asked for, accuses nobody who is not in the
    /// validator set, and has something to say of each record.
    pub fn accepts(&self, reply: &Reply) -> (ok: bool)
        ensures
            ok == acceptable(self.env(), self@, *reply),
    {
        match (&self.phase, reply) {
            (Phase::SecondValidation { .. }, Reply::Validation(_)) => true,
            (Phase::SecondChunks { .. }, Reply::Chunks(_)) => true,
            (Phase::SecondStore { .. }, Reply::Sent(_)) => true,
            (Phase::SecondInvalid { .. }, Reply::Sent(_)) => true,
            (Phase::SecondSign { .. }, Reply::Signature(_)) => true,
            (Phase::SecondShare { .. }, Reply::Sent(_)) => true,
            (Phase::StatementCheck { .. }, Reply::SignatureCheck(_)) => true,
            (Phase::Import { .. }, Reply::Imported { misbehaving, .. }) => self.knows_offenders(
                misbehaving,
            ),
            (Phase::Reports { n_records, .. }, Reply::Reports(reports)) => reports.len()
                == *n_records,
            (Phase::ReportsSent { .. }, Reply::Sent(_)) => true,
            (Phase::KickOffCandidate, Reply::Candidate(_)) => true,
            (Phase::KickOffPoV { .. }, Reply::PoV(_)) => true,
            (Phase::KickOffValidation { .. }, Reply::Validation(_)) => true,
            (Phase::KickOffSign { .. }, Reply::Signature(_)) => true,
            (Phase::KickOffShare, Reply::Sent(_)) => true,
            (Phase::WatchProposed { .. }, Reply::Proposed(_)) => true,
            (Phase::WatchSend, Reply::Sent(_)) => true,
            _ => false,
        }
    }

    fn knows_offenders(&self, misbehaving: &Vec<ValidatorIndex>) -> (known: bool)
        ensures
            known == offenders_known(
                self.table_context,
                misbehaving@,
                self.reported_misbehavior_for@,
            ),
    {
        let mut i: usize = 0;
        while i < misbehaving.len()
            invariant
                0 <= i <= misbehaving@.len(),
                offenders_known(
                    self.table_context,
                    misbehaving@.take(i as int),
                    self.reported_misbehavior_for@,
                ),
            decreases misbehaving@.len() - i,
        {
            let id = misbehaving[i];
            if !self.reported_misbehavior_for.contains(&id) && id as usize
                >= self.table_context.validators.len() {
                assert(!self.reported_misbehavior_for@.contains(misbehaving@[i as int]));
                return false;
            }
            i = i + 1;
        }
        assert(misbehaving@.take(misbehaving@.len() as int) =~= misbehaving@);
        true
    }

    /// Takes what the host has to say of the work that it was asked to do.
    pub fn resume(&mut self, reply: Reply) -> (next: Action)
        requires
            old(self).wf(),
            acceptable(old(self).env(), old(self)@, reply),
        ensures
            final(self).wf(),
            final(self).env() == old(self).env(),
            (JobStep { state: final(self)@, action: next@ }) == on_reply(
                old(self).env(),
                old(self)@,
                reply,
            ),
    {
        let mut phase = Phase::Finished;
        std::mem::swap(&mut phase, &mut self.phase);
        match (phase, reply) {
            (Phase::SecondValidation { candidate, pov }, Reply::Validation(result)) => {
                match result {
                    Ok((valid, global, local)) => self.second_validated(
                        candidate,
                        pov,
                        valid,
                        global,
                        local,
                    ),
                    Err(_) => self.done(),
                }
            },
            (Phase::SecondChunks { candidate }, Reply::Chunks(result)) => {
                match result {
                    Ok((chunks, proofs)) => {
                        let messages = make_pov_available(self.parent, chunks, proofs);
                        self.ask(Phase::SecondStore { candidate }, Action::Send(messages))
                    },
                    Err(_) => self.done(),
                }
            },
            (Phase::SecondStore { candidate }, Reply::Sent(result)) => {
                match result {
                    Ok(()) => {
                        let candidate_hash = candidate.hash();
                        self.issued_validity.insert(candidate_hash);
                        self.sign_second(
                            Statement::Seconded(candidate),
                            candidate_hash,
                            ValidationResult::Valid,
                        )
                    },
                    Err(_) => self.done(),
                }
            },
            (Phase::SecondInvalid { candidate_hash }, Reply::Sent(result)) => {
                match result {
                    Ok(()) => {
                        if self.table_context.validator.is_some() {
                            self.issued_validity.insert(candidate_hash);
                        }
                        self.sign_second(
                            Statement::Invalid(candidate_hash),
                            candidate_hash,
                            ValidationResult::Invalid,
                        )
                    },
                    Err(_) => self.done(),
                }
            },
            (
                Phase::SecondSign { statement, candidate_hash, valid },
                Reply::Signature(signature),
            ) => {
                let signed = self.with_signature(statement, signature);
                let stmt = primitive_statement_to_table(&signed);
                self.ask(
                    Phase::Import {
                        purpose: ImportPurpose::Second { signed, candidate_hash, valid },
                    },
                    Action::Import(stmt),
                )
            },
            (Phase::SecondShare { candidate_hash, valid }, Reply::Sent(result)) => {
                match result {
                    Ok(()) => self.second_over(candidate_hash, valid),
                    Err(_) => self.done(),
                }
            },
            (Phase::StatementCheck { statement }, Reply::SignatureCheck(matches)) => {
                if matches {
                    let stmt = primitive_statement_to_table(&statement);
                    self.ask(
                        Phase::Import { purpose: ImportPurpose::Statement { statement } },
                        Action::Import(stmt),
                    )
                } else {
                    self.finish(Err(Error::InvalidSignature))
                }
            },
            (Phase::Import { purpose }, Reply::Imported { summary, misbehaving }) => {
                let records = issue_new_misbehaviors(
                    &self.table_context,
                    &mut self.reported_misbehavior_for,
                    &misbehaving,
                );
                let n_records = records.len();
                self.ask(
                    Phase::Reports { purpose, summary, n_records },
                    Action::BuildReports(records),
                )
            },
            (Phase::Reports { purpose, summary, .. }, Reply::Reports(reports)) => {
                let messages = send_reports(self.parent, reports);
                self.ask(Phase::ReportsSent { purpose, summary }, Action::Send(messages))
            },
            (Phase::ReportsSent { purpose, summary }, Reply::Sent(result)) => {
                self.reports_sent(purpose, summary, result)
            },
            (Phase::KickOffCandidate, Reply::Candidate(found)) => {
                match found {
                    Some(candidate) => {
                        let request = self.request_pov_from_distribution(candidate.clone());
                        self.ask(Phase::KickOffPoV { candidate }, Action::Request(request))
                    },
                    None => self.finish(Err(Error::CandidateNotFound)),
                }
            },
            (Phase::KickOffPoV { candidate }, Reply::PoV(result)) => {
                match result {
                    Ok(pov) => {
                        let candidate_hash = candidate.hash();
                        let request = self.request_candidate_validation(candidate, pov);
                        self.ask(
                            Phase::KickOffValidation { candidate_hash },
                            Action::Request(request),
                        )
                    },
                    Err(e) => self.finish(Err(e)),
                }
            },
            (Phase::KickOffValidation { candidate_hash }, Reply::Validation(result)) => {
                match result {
                    Ok((valid, _, _)) => self.kick_off_validated(candidate_hash, valid),
                    Err(e) => self.finish(Err(e)),
                }
            },
            (Phase::KickOffSign { statement }, Reply::Signature(signature)) => {
                let signed = self.with_signature(statement, signature);
                let share = self.distribute_signed_statement(signed);
                self.ask(Phase::KickOffShare, share)
            },
            (Phase::KickOffShare, Reply::Sent(result)) => {
                match result {
                    Ok(()) => self.done(),
                    Err(e) => self.finish(Err(e)),
                }
            },
            (Phase::WatchProposed { watcher }, Reply::Proposed(proposed)) => {
                let backed = get_backed(&self.table_context, self.assignment, proposed);
                self.ask(Phase::WatchSend, Action::SendBacked { watcher, backed })
            },
            (Phase::WatchSend, Reply::Sent(result)) => {
                match result {
                    Ok(()) => self.done(),
                    Err(e) => self.finish(Err(e)),
                }
            },
            _ => unreached(),
        }
    }

    /// Makes the data of a valid candidate available, and tells candidate selection of an invalid
    /// one.
    fn second_validated(
        &mut self,
        candidate: Arc<AbridgedCandidateReceipt>,
        pov: Arc<PoVBlock>,
        valid: ValidationResult,
        global_validation: GlobalValidationSchedule,
        local_validation: LocalValidationData,
    ) -> (next: Action)
        requires
            old(self).issued_validity.wf(),
            old(self).table_context.groups_fit(),
        ensures
            final(self).wf(),
            final(self).env() == old(self).env(),
            (JobStep { state: final(self)@, action: next@ }) == second_validated(
                old(self).env(),
                old(self)@,
                candidate,
                pov,
                valid,
                global_validation,
                local_validation,
            ),
    {
        match valid {
            ValidationResult::Valid => {
                let n_validators = self.table_context.validators.len();
                let available_data = AvailableData {
                    pov_block: pov,
                    omitted_validation: OmittedValidationData {
                        global_validation,
                        local_validation,
                    },
                };
                self.ask(
                    Phase::SecondChunks { candidate },
                    Action::ObtainChunks { n_validators, available_data },
                )
            },
            ValidationResult::Invalid => {
                let candidate_hash = candidate.hash();
                let notice = self.issue_candidate_invalid_message(candidate);
                self.ask(Phase::SecondInvalid { candidate_hash }, notice)
            },
        }
    }

    /// Has our statement on a candidate that we were asked to second signed.
    fn sign_second(
        &mut self,
        statement: Statement,
        candidate_hash: H256,
        valid: ValidationResult,
    ) -> (next: Action)
        requires
            old(self).issued_validity.wf(),
            old(self).table_context.groups_fit(),
        ensures
            final(self).wf(),
            final(self).env() == old(self).env(),
            (JobStep { state: final(self)@, action: next@ }) == second_sign(
                old(self).env(),
                old(self)@,
                statement,
                candidate_hash,
                valid,
            ),
    {
        match self.sign_statement(&statement) {
            Some(sign) => self.ask(
                Phase::SecondSign { statement, candidate_hash, valid },
                sign,
            ),
            None => self.second_over(candidate_hash, valid),
        }
    }

    /// What there is to be done to sign a statement: nothing where this node is no validator.
    fn sign_statement(&self, statement: &Statement) -> (sign: Option<Action>)
        ensures
            match sign {
                Some(action) => {
                    &&& self.table_context.validator is Some
                    &&& action@ == ActionView::Sign(*statement)
                },
                None => self.table_context.validator is None,
            },
    {
        match self.table_context.validator {
            Some(_) => Some(Action::Sign(statement.clone())),
            None => None,
        }
    }

    /// Takes a valid candidate down as seconded.
    fn second_over(&mut self, candidate_hash: H256, valid: ValidationResult) -> (next: Action)
        requires
            old(self).issued_validity.wf(),
            old(self).table_context.groups_fit(),
        ensures
            final(self).wf(),
            final(self).env() == old(self).env(),
            (JobStep { state: final(self)@, action: next@ }) == second_over(
                old(self)@,
                candidate_hash,
                valid,
            ),
    {
        match valid {
            ValidationResult::Valid => {
                self.seconded = Some(candidate_hash);
            },
            ValidationResult::Invalid => {},
        }
        self.done()
    }

    /// Goes on after an import: our own statement is spread, and a statement that seconds a
    /// candidate of our parachain has us validate the candidate.
    fn reports_sent(
        &mut self,
        purpose: ImportPurpose,
        summary: Option<TableSummary>,
        result: Result<(), Error>,
    ) -> (next: Action)
        requires
            old(self).issued_validity.wf(),
            old(self).table_context.groups_fit(),
        ensures
            final(self).wf(),
            final(self).env() == old(self).env(),
            (JobStep { state: final(self)@, action: next@ }) == on_reply(
                old(self).env(),
                JobState { phase: Phase::ReportsSent { purpose, summary }, ..old(self)@ },
                Reply::Sent(result),
            ),
    {
        match (purpose, result) {
            (ImportPurpose::Second { signed, candidate_hash, valid }, Ok(())) => {
                let share = self.distribute_signed_statement(signed);
                self.ask(Phase::SecondShare { candidate_hash, valid }, share)
            },
            (ImportPurpose::Second { .. }, Err(_)) => self.done(),
            (ImportPurpose::Statement { statement }, Ok(())) => self.maybe_validate(
                statement,
                summary,
            ),
            (ImportPurpose::Statement { .. }, Err(e)) => self.finish(Err(e)),
        }
    }

    /// Sets out to validate a candidate if it was seconded on the parachain of our assignment.
    fn maybe_validate(&mut self, statement: SignedFullStatement, summary: Option<TableSummary>) -> (
        next: Action)
        requires
            old(self).issued_validity.wf(),
            old(self).table_context.groups_fit(),
        ensures
            final(self).wf(),
            final(self).env() == old(self).env(),
            (JobStep { state: final(self)@, action: next@ }) == statement_imported(
                old(self).env(),
                old(self)@,
                statement,
                summary,
            ),
    {
        if let Some(summary) = summary {
            if let Statement::Seconded(_) = &statement.payload {
                if summary.group_id == self.assignment {
                    return self.ask(
                        Phase::KickOffCandidate,
                        Action::GetCandidate(summary.candidate),
                    );
                }
            }
        }
        self.done()
    }

    /// Issues our verdict on a candidate that was seconded in our group.
    fn kick_off_validated(&mut self, candidate_hash: H256, valid: ValidationResult) -> (next:
        Action)
        requires
            old(self).issued_validity.wf(),
            old(self).table_context.groups_fit(),
        ensures
            final(self).wf(),
            final(self).env() == old(self).env(),
            (JobStep { state: final(self)@, action: next@ }) == kick_off_validated(
                old(self).env(),
                old(self)@,
                candidate_hash,
                valid,
            ),
    {
        let statement = match valid {
            ValidationResult::Valid => Statement::Valid(candidate_hash),
            ValidationResult::Invalid => Statement::Invalid(candidate_hash),
        };
        self.issued_validity.insert(candidate_hash);
        match self.sign_statement(&statement) {
            Some(sign) => self.ask(Phase::KickOffSign { statement }, sign),
            None => self.done(),
        }
    }
}

} // verus!
