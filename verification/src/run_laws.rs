//! What a job does with each message, from the message to the last reply: what it asks of its host
//! in terms of what it was sent and answered, and what it remembers afterwards.
use std::sync::Arc;

use vstd::prelude::*;

use crate::availability::chunk_messages;
use crate::backed::backed_views;
use crate::error::Error;
use crate::job_laws::{action_at, is_trace, possible, step, JobEvent};
use crate::messages::{
    CandidateBackingMessage, CandidateSelectionMessage, CandidateValidationMessage, FromJob,
    PoVDistributionMessage, StatementDistributionMessage, ToJob, WatcherId,
};
use crate::misbehavior::{lemma_new_offenders, misbehavior_records, new_offenders, report_messages};
use crate::primitives::{
    AbridgedCandidateReceipt, AvailableData, H256, OmittedValidationData, PoVBlock,
    SignedFullStatement, Statement, ValidationResult,
};
use crate::protocol::{acceptable, ActionView, JobEnv, JobState, Phase, Reply};
use crate::table::{TableSignedStatement, TableStatement};

verus! {

/// Whether the job remembers the same in both states.
pub open spec fn remembers_the_same(a: JobState, b: JobState) -> bool {
    &&& a.issued_validity == b.issued_validity
    &&& a.seconded == b.seconded
    &&& a.reported_misbehavior_for == b.reported_misbehavior_for
}

/// Whether what has come in is a request to second the candidate.
pub open spec fn asks_to_second(
    event: JobEvent,
    candidate: Arc<AbridgedCandidateReceipt>,
    pov: Arc<PoVBlock>,
) -> bool {
    event matches JobEvent::Received(Some(ToJob::CandidateBacking(
        CandidateBackingMessage::Second(_, asked, with),
    ))) && asked == candidate && with == pov
}

/// Whether what has come in is the statement.
pub open spec fn brings_statement(event: JobEvent, signed: SignedFullStatement) -> bool {
    event matches JobEvent::Received(Some(ToJob::CandidateBacking(
        CandidateBackingMessage::Statement(_, received),
    ))) && received == signed
}

/// Whether the host has found the candidate to be valid or invalid, as said.
pub open spec fn is_verdict(event: JobEvent, valid: ValidationResult) -> bool {
    event matches JobEvent::Replied(Reply::Validation(Ok((outcome, _, _)))) && outcome == valid
}

/// Whether all messages have gone out.
pub open spec fn has_gone_out(event: JobEvent) -> bool {
    event matches JobEvent::Replied(Reply::Sent(Ok(_)))
}

/// A new job has issued no statement, has seconded no candidate and has reported nobody.
pub proof fn law_begins_with_nothing()
    ensures
        JobState::initial().issued_validity == Set::<H256>::empty(),
        JobState::initial().seconded is None,
        forall|id: u32| !JobState::initial().reported_misbehavior_for.contains(id),
        JobState::initial().phase is Idle,
{
}

/// A request to second has the candidate of the request validated with the proof of the request, on
/// the head of our parachain, if no candidate has been seconded and no statement has been issued on
/// this one. Otherwise it changes nothing.
pub proof fn law_request_to_second_has_it_validated(
    env: JobEnv,
    states: Seq<JobState>,
    events: Seq<JobEvent>,
    candidate: Arc<AbridgedCandidateReceipt>,
    pov: Arc<PoVBlock>,
)
    requires
        is_trace(env, states, events),
        events.len() >= 1,
        asks_to_second(events[0], candidate, pov),
    ensures
        if states[0].seconded is None && !states[0].issued_validity.contains(candidate.hash) {
            &&& action_at(env, states, events, 0) == ActionView::Request(
                FromJob::CandidateValidation(
                    CandidateValidationMessage::Validate(
                        env.parent,
                        candidate,
                        env.head_data,
                        pov,
                    ),
                ),
            )
            &&& remembers_the_same(states[1], states[0])
        } else {
            &&& action_at(env, states, events, 0) == ActionView::Receive
            &&& states[1] == states[0]
        },
{
    let e0 = events[0];
}

/// When a candidate that we were asked to second is validated: of a valid one, the proof of the
/// request is erasure coded for all validators, together with the very data that the validation
/// came back with; of an invalid one, candidate selection is told; and where no verdict was
/// reached, the request is forgotten.
pub proof fn law_verdict_on_a_request_to_second(
    env: JobEnv,
    states: Seq<JobState>,
    events: Seq<JobEvent>,
    candidate: Arc<AbridgedCandidateReceipt>,
    pov: Arc<PoVBlock>,
)
    requires
        is_trace(env, states, events),
        events.len() >= 2,
        asks_to_second(events[0], candidate, pov),
        states[0].seconded is None,
        !states[0].issued_validity.contains(candidate.hash),
    ensures
        events[1] matches JobEvent::Replied(Reply::Validation(result)) && match result {
            Ok((ValidationResult::Valid, global_validation, local_validation)) => {
                &&& action_at(env, states, events, 1) == (ActionView::ObtainChunks {
                    n_validators: env.table_context.validators@.len(),
                    available_data: AvailableData {
                        pov_block: pov,
                        omitted_validation: OmittedValidationData {
                            global_validation,
                            local_validation,
                        },
                    },
                })
                &&& remembers_the_same(states[2], states[0])
            },
            Ok((ValidationResult::Invalid, _, _)) => {
                &&& action_at(env, states, events, 1) == ActionView::Send(
                    seq![
                        FromJob::CandidateSelection(
                            CandidateSelectionMessage::Invalid(env.parent, candidate),
                        ),
                    ],
                )
                &&& remembers_the_same(states[2], states[0])
            },
            Err(_) => {
                &&& action_at(env, states, events, 1) == ActionView::Receive
                &&& states[2] == states[0]
            },
        },
{
    let e0 = events[0];
    let e1 = events[1];
    assert(states[1].phase == Phase::SecondValidation { candidate, pov });
}

/// The chunks of a valid candidate that we were asked to second are stored; where they could not be
/// made, the request is forgotten.
pub proof fn law_chunks_are_stored(
    env: JobEnv,
    states: Seq<JobState>,
    events: Seq<JobEvent>,
    candidate: Arc<AbridgedCandidateReceipt>,
    pov: Arc<PoVBlock>,
)
    requires
        is_trace(env, states, events),
        events.len() >= 3,
        asks_to_second(events[0], candidate, pov),
        states[0].seconded is None,
        !states[0].issued_validity.contains(candidate.hash),
        is_verdict(events[1], ValidationResult::Valid),
    ensures
        events[2] matches JobEvent::Replied(Reply::Chunks(result)) && match result {
            Ok((chunks, proofs)) => {
                &&& action_at(env, states, events, 2) == ActionView::Send(
                    chunk_messages(env.parent, chunks@, proofs@),
                )
                &&& remembers_the_same(states[3], states[0])
            },
            Err(_) => {
                &&& action_at(env, states, events, 2) == ActionView::Receive
                &&& states[3] == states[0]
            },
        },
{
    let e0 = events[0];
    let e1 = events[1];
    let e2 = events[2];
    assert(states[1].phase == Phase::SecondValidation { candidate, pov });
    assert(states[2].phase == Phase::SecondChunks { candidate });
}

/// Once the chunks of a valid candidate are stored, a statement on it is issued: a validator signs
/// that it seconds the candidate, and a node that is no validator takes it down as seconded at
/// once. Where the chunks could not be stored, the request is forgotten.
pub proof fn law_stored_candidate_is_signed(
    env: JobEnv,
    states: Seq<JobState>,
    events: Seq<JobEvent>,
    candidate: Arc<AbridgedCandidateReceipt>,
    pov: Arc<PoVBlock>,
)
    requires
        is_trace(env, states, events),
        events.len() >= 4,
        asks_to_second(events[0], candidate, pov),
        states[0].seconded is None,
        !states[0].issued_validity.contains(candidate.hash),
        is_verdict(events[1], ValidationResult::Valid),
        events[2] matches JobEvent::Replied(Reply::Chunks(Ok(_))),
    ensures
        events[3] matches JobEvent::Replied(Reply::Sent(result)) && match result {
            Ok(_) => {
                &&& states[4].issued_validity == states[0].issued_validity.insert(candidate.hash)
                &&& states[4].reported_misbehavior_for == states[0].reported_misbehavior_for
                &&& if env.table_context.validator is Some {
                    &&& action_at(env, states, events, 3) == ActionView::Sign(
                        Statement::Seconded(candidate),
                    )
                    &&& states[4].seconded is None
                } else {
                    &&& action_at(env, states, events, 3) == ActionView::Receive
                    &&& states[4].seconded == Some(candidate.hash)
                }
            },
            Err(_) => {
                &&& action_at(env, states, events, 3) == ActionView::Receive
                &&& states[4] == states[0]
            },
        },
{
    let e0 = events[0];
    let e1 = events[1];
    let e2 = events[2];
    let e3 = events[3];
    assert(states[1].phase == Phase::SecondValidation { candidate, pov });
    assert(states[2].phase == Phase::SecondChunks { candidate });
    assert(states[3].phase == Phase::SecondStore { candidate });
}

/// Once candidate selection has been told of an invalid candidate, a validator issues and signs the
/// statement that it is invalid. A node that is no validator issues nothing, and where candidate
/// selection could not be told, the request is forgotten.
pub proof fn law_invalid_candidate_is_signed(
    env: JobEnv,
    states: Seq<JobState>,
    events: Seq<JobEvent>,
    candidate: Arc<AbridgedCandidateReceipt>,
    pov: Arc<PoVBlock>,
)
    requires
        is_trace(env, states, events),
        events.len() >= 3,
        asks_to_second(events[0], candidate, pov),
        states[0].seconded is None,
        !states[0].issued_validity.contains(candidate.hash),
        is_verdict(events[1], ValidationResult::Invalid),
    ensures
        events[2] matches JobEvent::Replied(Reply::Sent(result)) && if result is Ok
            && env.table_context.validator is Some {
            &&& action_at(env, states, events, 2) == ActionView::Sign(
                Statement::Invalid(candidate.hash),
            )
            &&& states[3].issued_validity == states[0].issued_validity.insert(candidate.hash)
            &&& states[3].reported_misbehavior_for == states[0].reported_misbehavior_for
            &&& states[3].seconded is None
        } else {
            &&& action_at(env, states, events, 2) == ActionView::Receive
            &&& states[3] == states[0]
        },
{
    let e0 = events[0];
    let e1 = events[1];
    let e2 = events[2];
    assert(states[1].phase == Phase::SecondValidation { candidate, pov });
    assert(states[2].phase == Phase::SecondInvalid { candidate_hash: candidate.hash });
}

/// Whether a validator that was asked to second the candidate has come so far as to sign, after so
/// many events, what it has to say of it.
pub open spec fn signs_on_request(
    env: JobEnv,
    states: Seq<JobState>,
    events: Seq<JobEvent>,
    candidate: Arc<AbridgedCandidateReceipt>,
    pov: Arc<PoVBlock>,
    valid: ValidationResult,
    n: int,
) -> bool {
    &&& is_trace(env, states, events)
    &&& env.table_context.validator is Some
    &&& states[0].seconded is None
    &&& !states[0].issued_validity.contains(candidate.hash)
    &&& events.len() >= n
    &&& asks_to_second(events[0], candidate, pov)
    &&& is_verdict(events[1], valid)
    &&& match valid {
        ValidationResult::Valid => {
            &&& n == 4
            &&& events[2] matches JobEvent::Replied(Reply::Chunks(Ok(_)))
            &&& has_gone_out(events[3])
        },
        ValidationResult::Invalid => n == 3 && has_gone_out(events[2]),
    }
}

/// What we have to say of a candidate that we were asked to second is imported, with the signature
/// that came back, and under our own index; whoever misbehaves by then and has not been reported is
/// reported; and then the statement is spread. A valid candidate is taken down as seconded when its
/// statement has gone out, and not before. Nothing of it ends the job.
pub proof fn law_own_statement_is_imported_and_spread(
    env: JobEnv,
    states: Seq<JobState>,
    events: Seq<JobEvent>,
    candidate: Arc<AbridgedCandidateReceipt>,
    pov: Arc<PoVBlock>,
    valid: ValidationResult,
    n: int,
)
    requires
        signs_on_request(env, states, events, candidate, pov, valid, n),
        events.len() >= n + 5,
    ensures
        events[n] matches JobEvent::Replied(Reply::Signature(signature)) && {
            &&& action_at(env, states, events, n) == ActionView::Import(
                TableSignedStatement {
                    statement: match valid {
                        ValidationResult::Valid => TableStatement::Candidate(candidate),
                        ValidationResult::Invalid => TableStatement::Invalid(candidate.hash),
                    },
                    signature,
                    sender: env.table_context.validator->0.index,
                },
            )
            &&& has_gone_out(events[n + 3]) ==> action_at(env, states, events, n + 3)
                == ActionView::Send(
                seq![
                    FromJob::StatementDistribution(
                        StatementDistributionMessage::Share(
                            env.parent,
                            SignedFullStatement {
                                payload: match valid {
                                    ValidationResult::Valid => Statement::Seconded(candidate),
                                    ValidationResult::Invalid => Statement::Invalid(candidate.hash),
                                },
                                validator_index: env.table_context.validator->0.index,
                                signature,
                            },
                        ),
                    ),
                ],
            )
        },
        events[n + 1] matches JobEvent::Replied(Reply::Imported { misbehaving, .. }) && {
            &&& action_at(env, states, events, n + 1) == ActionView::BuildReports(
                misbehavior_records(
                    env.table_context,
                    new_offenders(misbehaving@, states[0].reported_misbehavior_for),
                ),
            )
            &&& states[n + 4].reported_misbehavior_for == states[0].reported_misbehavior_for.union(
                misbehaving@.to_set(),
            )
        },
        events[n + 2] matches JobEvent::Replied(Reply::Reports(reports)) && action_at(
            env,
            states,
            events,
            n + 2,
        ) == ActionView::Send(report_messages(env.parent, reports@)),
        states[n + 4].issued_validity == states[0].issued_validity.insert(candidate.hash),
        states[n + 4].seconded is None,
        !has_gone_out(events[n + 3]) ==> action_at(env, states, events, n + 3)
            == ActionView::Receive,
        has_gone_out(events[n + 3]) ==> {
            &&& action_at(env, states, events, n + 4) == ActionView::Receive
            &&& states[n + 5].issued_validity == states[n + 4].issued_validity
            &&& states[n + 5].reported_misbehavior_for == states[n + 4].reported_misbehavior_for
            &&& states[n + 5].seconded == if has_gone_out(events[n + 4]) && valid
                == ValidationResult::Valid {
                Some(candidate.hash)
            } else {
                None
            }
        },
{
    let e0 = events[0];
    let e1 = events[1];
    let e2 = events[2];
    assert(states[1].phase == Phase::SecondValidation { candidate, pov });
    match valid {
        ValidationResult::Valid => {
            let e3 = events[3];
            assert(states[2].phase == Phase::SecondChunks { candidate });
            assert(states[3].phase == Phase::SecondStore { candidate });
        },
        ValidationResult::Invalid => {
            assert(states[2].phase == Phase::SecondInvalid { candidate_hash: candidate.hash });
        },
    }
    assert(states[n].phase is SecondSign);
    let a = events[n];
    let b = events[n + 1];
    let c = events[n + 2];
    let d = events[n + 3];
    let f = events[n + 4];
    assert(states[n + 1].phase is Import);
    assert(states[n + 2].phase is Reports);
    assert(states[n + 3].phase is ReportsSent);
}

/// A statement of another validator is checked against the key that stands at the index of its
/// sender, in the context of the job. One of a sender who is not in the set ends the job.
pub proof fn law_statements_are_checked(
    env: JobEnv,
    states: Seq<JobState>,
    events: Seq<JobEvent>,
    signed: SignedFullStatement,
)
    requires
        is_trace(env, states, events),
        events.len() >= 1,
        brings_statement(events[0], signed),
    ensures
        if signed.validator_index < env.table_context.validators@.len() {
            &&& action_at(env, states, events, 0) == (ActionView::CheckSignature {
                signing_context: env.table_context.signing_context,
                key: env.table_context.validators@[signed.validator_index as int],
                statement: signed,
            })
            &&& remembers_the_same(states[1], states[0])
        } else {
            action_at(env, states, events, 0) == ActionView::Finish(Err(Error::InvalidSignature))
        },
{
    let e0 = events[0];
}

/// A statement whose signature matches is imported as it is, under the index of its sender. One
/// whose signature does not match ends the job.
pub proof fn law_checked_statement_is_imported(
    env: JobEnv,
    states: Seq<JobState>,
    events: Seq<JobEvent>,
    signed: SignedFullStatement,
)
    requires
        is_trace(env, states, events),
        events.len() >= 2,
        brings_statement(events[0], signed),
    ensures
        events[1] matches JobEvent::Replied(Reply::SignatureCheck(good)) && if good {
            &&& action_at(env, states, events, 1) == ActionView::Import(
                TableSignedStatement {
                    statement: match signed.payload {
                        Statement::Seconded(candidate) => TableStatement::Candidate(candidate),
                        Statement::Valid(hash) => TableStatement::Valid(hash),
                        Statement::Invalid(hash) => TableStatement::Invalid(hash),
                    },
                    signature: signed.signature,
                    sender: signed.validator_index,
                },
            )
            &&& remembers_the_same(states[2], states[0])
        } else {
            action_at(env, states, events, 1) == ActionView::Finish(Err(Error::InvalidSignature))
        },
{
    let e0 = events[0];
    let e1 = events[1];
    assert(states[1].phase is StatementCheck);
}

/// When a statement of another validator has been imported, whoever misbehaves by then and has not
/// been reported is reported. After that the job goes on as it was, but for those reports, unless
/// the statement seconds a candidate of the parachain of our assignment: then the job looks the
/// candidate up. Only reports that cannot be sent end the job.
pub proof fn law_imported_statement_is_done_with(
    env: JobEnv,
    states: Seq<JobState>,
    events: Seq<JobEvent>,
    signed: SignedFullStatement,
)
    requires
        is_trace(env, states, events),
        events.len() >= 5,
        brings_statement(events[0], signed),
    ensures
        events[2] matches JobEvent::Replied(Reply::Imported { summary, misbehaving }) && {
            &&& action_at(env, states, events, 2) == ActionView::BuildReports(
                misbehavior_records(
                    env.table_context,
                    new_offenders(misbehaving@, states[0].reported_misbehavior_for),
                ),
            )
            &&& events[4] matches JobEvent::Replied(Reply::Sent(result)) && match result {
                Ok(_) => {
                    &&& states[5].issued_validity == states[0].issued_validity
                    &&& states[5].seconded == states[0].seconded
                    &&& states[5].reported_misbehavior_for
                        == states[0].reported_misbehavior_for.union(misbehaving@.to_set())
                    &&& if signed.payload is Seconded && summary is Some && summary->0.group_id
                        == env.assignment {
                        action_at(env, states, events, 4) == ActionView::GetCandidate(
                            summary->0.candidate,
                        )
                    } else {
                        &&& action_at(env, states, events, 4) == ActionView::Receive
                        &&& states[5].phase is Idle
                    }
                },
                Err(e) => action_at(env, states, events, 4) == ActionView::Finish(Err(e)),
            }
        },
        events[3] matches JobEvent::Replied(Reply::Reports(reports)) && action_at(
            env,
            states,
            events,
            3,
        ) == ActionView::Send(report_messages(env.parent, reports@)),
{
    let e0 = events[0];
    let e1 = events[1];
    let e2 = events[2];
    let e3 = events[3];
    let e4 = events[4];
    assert(states[1].phase is StatementCheck);
    assert(states[2].phase is Import);
    assert(states[3].phase is Reports);
    assert(states[4].phase is ReportsSent);
}

/// Whether the host was asked for a candidate that another validator has seconded, at this point.
pub open spec fn looks_up(
    env: JobEnv,
    states: Seq<JobState>,
    events: Seq<JobEvent>,
    i: int,
) -> bool {
    &&& is_trace(env, states, events)
    &&& 0 <= i < events.len()
    &&& action_at(env, states, events, i) is GetCandidate
}

/// For a candidate that the table holds, its proof of validity is fetched; one that it does not
/// hold ends the job.
pub proof fn law_proof_is_fetched(
    env: JobEnv,
    states: Seq<JobState>,
    events: Seq<JobEvent>,
    i: int,
)
    requires
        looks_up(env, states, events, i),
        i + 1 < events.len(),
    ensures
        events[i + 1] matches JobEvent::Replied(Reply::Candidate(found)) && match found {
            Some(candidate) => {
                &&& action_at(env, states, events, i + 1) == ActionView::Request(
                    FromJob::PoVDistribution(
                        PoVDistributionMessage::FetchPoV(env.parent, candidate),
                    ),
                )
                &&& remembers_the_same(states[i + 2], states[i + 1])
            },
            None => action_at(env, states, events, i + 1) == ActionView::Finish(
                Err(Error::CandidateNotFound),
            ),
        },
{
    let e = events[i];
    assert(states[i + 1].phase is KickOffCandidate);
    let e1 = events[i + 1];
}

/// The candidate that was looked up is validated with the proof that was fetched, on the head of
/// our parachain; a proof that cannot be had ends the job.
pub proof fn law_fetched_proof_is_validated(
    env: JobEnv,
    states: Seq<JobState>,
    events: Seq<JobEvent>,
    i: int,
    candidate: Arc<AbridgedCandidateReceipt>,
)
    requires
        looks_up(env, states, events, i),
        i + 2 < events.len(),
        events[i + 1] == JobEvent::Replied(Reply::Candidate(Some(candidate))),
    ensures
        events[i + 2] matches JobEvent::Replied(Reply::PoV(result)) && match result {
            Ok(pov) => {
                &&& action_at(env, states, events, i + 2) == ActionView::Request(
                    FromJob::CandidateValidation(
                        CandidateValidationMessage::Validate(
                            env.parent,
                            candidate,
                            env.head_data,
                            pov,
                        ),
                    ),
                )
                &&& remembers_the_same(states[i + 3], states[i + 1])
            },
            Err(e) => action_at(env, states, events, i + 2) == ActionView::Finish(Err(e)),
        },
{
    let e = events[i];
    assert(states[i + 1].phase is KickOffCandidate);
    let e1 = events[i + 1];
    assert(states[i + 2].phase == Phase::KickOffPoV { candidate });
    let e2 = events[i + 2];
}

/// On the candidate that was looked up a statement is issued that says what the validation says,
/// and a validator signs it; a validation that cannot be made ends the job.
pub proof fn law_verdict_is_signed(
    env: JobEnv,
    states: Seq<JobState>,
    events: Seq<JobEvent>,
    i: int,
    candidate: Arc<AbridgedCandidateReceipt>,
)
    requires
        looks_up(env, states, events, i),
        i + 3 < events.len(),
        events[i + 1] == JobEvent::Replied(Reply::Candidate(Some(candidate))),
        events[i + 2] matches JobEvent::Replied(Reply::PoV(Ok(_))),
    ensures
        events[i + 3] matches JobEvent::Replied(Reply::Validation(result)) && match result {
            Ok((valid, _, _)) => {
                &&& states[i + 4].issued_validity == states[i + 1].issued_validity.insert(
                    candidate.hash,
                )
                &&& states[i + 4].seconded == states[i + 1].seconded
                &&& states[i + 4].reported_misbehavior_for == states[i
                    + 1].reported_misbehavior_for
                &&& action_at(env, states, events, i + 3) == if env.table_context.validator is Some {
                    ActionView::Sign(
                        if valid == ValidationResult::Valid {
                            Statement::Valid(candidate.hash)
                        } else {
                            Statement::Invalid(candidate.hash)
                        },
                    )
                } else {
                    ActionView::Receive
                }
            },
            Err(e) => action_at(env, states, events, i + 3) == ActionView::Finish(Err(e)),
        },
{
    let e = events[i];
    assert(states[i + 1].phase is KickOffCandidate);
    let e1 = events[i + 1];
    assert(states[i + 2].phase == Phase::KickOffPoV { candidate });
    let e2 = events[i + 2];
    assert(states[i + 3].phase == Phase::KickOffValidation { candidate_hash: candidate.hash });
    let e3 = events[i + 3];
}

/// The verdict of a validator is spread with the signature that came back, under its own index, and
/// then the job goes on; a verdict that cannot be sent ends the job.
pub proof fn law_verdict_is_spread(
    env: JobEnv,
    states: Seq<JobState>,
    events: Seq<JobEvent>,
    i: int,
    candidate: Arc<AbridgedCandidateReceipt>,
    valid: ValidationResult,
)
    requires
        looks_up(env, states, events, i),
        i + 5 < events.len(),
        env.table_context.validator is Some,
        events[i + 1] == JobEvent::Replied(Reply::Candidate(Some(candidate))),
        events[i + 2] matches JobEvent::Replied(Reply::PoV(Ok(_))),
        is_verdict(events[i + 3], valid),
    ensures
        events[i + 4] matches JobEvent::Replied(Reply::Signature(signature)) && action_at(
            env,
            states,
            events,
            i + 4,
        ) == ActionView::Send(
            seq![
                FromJob::StatementDistribution(
                    StatementDistributionMessage::Share(
                        env.parent,
                        SignedFullStatement {
                            payload: if valid == ValidationResult::Valid {
                                Statement::Valid(candidate.hash)
                            } else {
                                Statement::Invalid(candidate.hash)
                            },
                            validator_index: env.table_context.validator->0.index,
                            signature,
                        },
                    ),
                ),
            ],
        ),
        events[i + 5] matches JobEvent::Replied(Reply::Sent(result)) && action_at(
            env,
            states,
            events,
            i + 5,
        ) == match result {
            Ok(_) => ActionView::Receive,
            Err(e) => ActionView::Finish(Err(e)),
        },
        remembers_the_same(states[i + 6], states[i + 4]),
{
    let e = events[i];
    assert(states[i + 1].phase is KickOffCandidate);
    let e1 = events[i + 1];
    assert(states[i + 2].phase == Phase::KickOffPoV { candidate });
    let e2 = events[i + 2];
    assert(states[i + 3].phase == Phase::KickOffValidation { candidate_hash: candidate.hash });
    let e3 = events[i + 3];
    assert(states[i + 4].phase is KickOffSign);
    let e4 = events[i + 4];
    assert(states[i + 5].phase is KickOffShare);
    let e5 = events[i + 5];
}

/// A watcher is sent the backed form of what the table proposes, and then the job goes on as it
/// was; where the watcher does not take it, the job ends.
pub proof fn law_watcher_is_sent_what_is_backed(
    env: JobEnv,
    states: Seq<JobState>,
    events: Seq<JobEvent>,
    watcher: WatcherId,
)
    requires
        is_trace(env, states, events),
        events.len() >= 3,
        events[0] matches JobEvent::Received(Some(ToJob::CandidateBacking(
            CandidateBackingMessage::RegisterBackingWatcher(_, asked),
        ))) && asked == watcher,
    ensures
        action_at(env, states, events, 0) == ActionView::GetProposed,
        events[1] matches JobEvent::Replied(Reply::Proposed(proposed)) && action_at(
            env,
            states,
            events,
            1,
        ) == (ActionView::SendBacked {
            watcher,
            backed: backed_views(
                proposed@,
                if env.table_context.groups@.contains_key(env.assignment) {
                    Some(env.table_context.groups@[env.assignment]@)
                } else {
                    None
                },
            ),
        }),
        events[2] matches JobEvent::Replied(Reply::Sent(result)) && match result {
            Ok(_) => {
                &&& action_at(env, states, events, 2) == ActionView::Receive
                &&& states[3] == states[0]
            },
            Err(e) => action_at(env, states, events, 2) == ActionView::Finish(Err(e)),
        },
{
    let e0 = events[0];
    let e1 = events[1];
    let e2 = events[2];
    assert(states[1].phase is WatchProposed);
    assert(states[2].phase is WatchSend);
}

/// A job ends well when it is told to stop or when its channel is closed, and only then.
pub proof fn law_ends_well_only_when_told_to(env: JobEnv, s: JobState, event: JobEvent)
    requires
        possible(env, s, event),
    ensures
        step(env, s, event).action matches ActionView::Finish(Ok(_)) <==> {
            ||| event matches JobEvent::Received(None)
            ||| event matches JobEvent::Received(Some(ToJob::Stop))
        },
{
}

/// A job ends with an error only over a statement that is not properly signed, over a candidate
/// that the table does not hold, or over an error of its host, which is then the error of the job.
pub proof fn law_ends_badly_only_for_a_reason(
    env: JobEnv,
    s: JobState,
    event: JobEvent,
    error: Error,
)
    requires
        possible(env, s, event),
        step(env, s, event).action == ActionView::Finish(Err(error)),
    ensures
        match event {
            JobEvent::Received(received) => {
                &&& received matches Some(ToJob::CandidateBacking(
                    CandidateBackingMessage::Statement(_, signed),
                ))
                &&& signed.validator_index >= env.table_context.validators@.len()
                &&& error == Error::InvalidSignature
            },
            JobEvent::Replied(reply) => match reply {
                Reply::SignatureCheck(good) => !good && error == Error::InvalidSignature,
                Reply::Candidate(found) => found is None && error == Error::CandidateNotFound,
                Reply::Sent(result) => result matches Err(e) && e == error,
                Reply::PoV(result) => result matches Err(e) && e == error,
                Reply::Validation(result) => result matches Err(e) && e == error,
                _ => false,
            },
        },
{
}

/// A job takes every answer to what it has asked for, and nothing else: it is only wary of an
/// import that accuses somebody who is new to it and not in the validator set, and of reports that
/// are not one for each record.
pub proof fn law_every_answer_is_taken(env: JobEnv, s: JobState, event: JobEvent, reply: Reply)
    requires
        possible(env, s, event),
    ensures
        ({
            let next = step(env, s, event);
            acceptable(env, next.state, reply) <==> match next.action {
                ActionView::Receive => false,
                ActionView::Send(_) => reply is Sent,
                ActionView::Request(FromJob::CandidateValidation(_)) => reply is Validation,
                ActionView::Request(FromJob::PoVDistribution(_)) => reply is PoV,
                ActionView::Request(_) => false,
                ActionView::ObtainChunks { .. } => reply is Chunks,
                ActionView::Sign(_) => reply is Signature,
                ActionView::CheckSignature { .. } => reply is SignatureCheck,
                ActionView::Import(_) => {
                    &&& reply matches Reply::Imported { misbehaving, .. }
                    &&& forall|k: int|
                        0 <= k < misbehaving@.len()
                            && !next.state.reported_misbehavior_for.contains(
                            #[trigger] misbehaving@[k],
                        ) ==> misbehaving@[k] < env.table_context.validators@.len()
                },
                ActionView::BuildReports(records) => reply matches Reply::Reports(reports)
                    && reports@.len() == records.len(),
                ActionView::GetCandidate(_) => reply is Candidate,
                ActionView::GetProposed => reply is Proposed,
                ActionView::SendBacked { .. } => reply is Sent,
                ActionView::Finish(_) => false,
            }
        }),
{
    if let JobEvent::Replied(Reply::Imported { misbehaving, .. }) = event {
        lemma_new_offenders(misbehaving@, s.reported_misbehavior_for);
        assert(misbehaving@.len() == misbehaving.len());
    }
}

} // verus!
