//! What holds of every backing job, whatever it is sent and whatever its host answers.
use std::sync::Arc;

use vstd::prelude::*;

use crate::availability::chunk_messages;
use crate::backed::backed_views;
use crate::error::Error;
use crate::messages::{
    CandidateBackingMessage, FromJob, StatementDistributionMessage, ToJob, WatcherId,
};
use crate::misbehavior::{
    lemma_new_offenders, misbehavior_record, misbehavior_records, new_offenders, report_message,
    report_messages, FromTableMisbehavior,
};
use crate::primitives::{
    AbridgedCandidateReceipt, H256, MisbehaviorReport, PoVBlock, SignedFullStatement,
    SigningContext, Statement, ValidationResult, ValidatorId, ValidatorIndex, ValidatorSignature,
};
use crate::protocol::{
    acceptable, expects, invalid_notice, on_received, on_reply, on_second, share_message,
    signed_by_us, validation_request, verdict, ActionView, ImportPurpose, JobEnv, JobState, JobStep, Phase, Reply,
};
use crate::table::{
    table_statement, TableAttestedCandidate, TableSignedStatement, TableSummary,
};

verus! {

/// What moves a job on.
pub ghost enum JobEvent {
    /// Something has come in over its channel; `None` when the channel is closed.
    Received(Option<ToJob>),
    /// The host has done its work.
    Replied(Reply),
}

/// What the job makes of an event.
pub open spec fn step(env: JobEnv, s: JobState, event: JobEvent) -> JobStep {
    match event {
        JobEvent::Received(received) => on_received(env, s, received),
        JobEvent::Replied(reply) => on_reply(env, s, reply),
    }
}

/// Whether the event can occur: messages are taken up one at a time.
pub open spec fn possible(env: JobEnv, s: JobState, event: JobEvent) -> bool {
    match event {
        JobEvent::Received(_) => s.phase is Idle,
        JobEvent::Replied(reply) => acceptable(env, s, reply),
    }
}

/// A stretch of the life of a job: the states that it goes through, and the event that takes it
/// from each of them to the next.
pub open spec fn is_trace(env: JobEnv, states: Seq<JobState>, events: Seq<JobEvent>) -> bool {
    &&& states.len() == events.len() + 1
    &&& forall|i: int|
        #![trigger events[i]]
        0 <= i < events.len() ==> possible(env, states[i], events[i]) && states[i + 1] == step(
            env,
            states[i],
            events[i],
        ).state
}

/// What the job asks for at a point of its life.
pub open spec fn action_at(
    env: JobEnv,
    states: Seq<JobState>,
    events: Seq<JobEvent>,
    i: int,
) -> ActionView {
    step(env, states[i], events[i]).action
}

/// The candidate that the job was asked to second and is busy with.
pub open spec fn seconding(phase: Phase) -> Option<H256> {
    match phase {
        Phase::SecondValidation { candidate, .. } => Some(candidate.hash),
        Phase::SecondChunks { candidate } => Some(candidate.hash),
        Phase::SecondStore { candidate } => Some(candidate.hash),
        Phase::SecondInvalid { candidate_hash } => Some(candidate_hash),
        Phase::SecondSign { candidate_hash, .. } => Some(candidate_hash),
        Phase::SecondShare { candidate_hash, .. } => Some(candidate_hash),
        Phase::Import { purpose } => seconding_import(purpose),
        Phase::Reports { purpose, .. } => seconding_import(purpose),
        Phase::ReportsSent { purpose, .. } => seconding_import(purpose),
        _ => None,
    }
}

/// The candidate on which a statement of our own is imported.
pub open spec fn seconding_import(purpose: ImportPurpose) -> Option<H256> {
    match purpose {
        ImportPurpose::Second { candidate_hash, .. } => Some(candidate_hash),
        ImportPurpose::Statement { .. } => None,
    }
}

/// Whether the job is still before its own statement on the candidate.
pub open spec fn undecided(phase: Phase) -> bool {
    phase is SecondValidation || phase is SecondChunks || phase is SecondStore
        || phase is SecondInvalid
}

/// The statement that fits the verdict on a candidate that we were asked to second.
pub open spec fn fits_verdict(statement: Statement, hash: H256, valid: ValidationResult) -> bool {
    match valid {
        ValidationResult::Valid => statement matches Statement::Seconded(c) && c.hash == hash,
        ValidationResult::Invalid => statement == Statement::Invalid(hash),
    }
}

/// Whether the statement that is imported on our own behalf fits the verdict.
pub open spec fn import_fits(purpose: ImportPurpose) -> bool {
    purpose matches ImportPurpose::Second { signed, candidate_hash, valid } ==> fits_verdict(
        signed.payload,
        candidate_hash,
        valid,
    )
}

/// The invariant of a job: it has issued a statement on the candidate that it has seconded. While
/// it is busy with a candidate that it was asked to second, it has seconded no other, it has issued
/// a statement on the candidate exactly from the point where it signs one, and that statement fits
/// the verdict. On a candidate of another validator it gives its verdict, and does not second it.
pub open spec fn consistent(s: JobState) -> bool {
    &&& s.seconded matches Some(hash) ==> s.issued_validity.contains(hash)
    &&& seconding(s.phase) matches Some(hash) ==> s.seconded is None && (undecided(s.phase)
        <==> !s.issued_validity.contains(hash))
    &&& match s.phase {
        Phase::SecondSign { statement, candidate_hash, valid } => fits_verdict(
            statement,
            candidate_hash,
            valid,
        ),
        Phase::Import { purpose } => import_fits(purpose),
        Phase::Reports { purpose, .. } => import_fits(purpose),
        Phase::ReportsSent { purpose, .. } => import_fits(purpose),
        Phase::KickOffSign { statement } => !(statement is Seconded),
        _ => true,
    }
}

/// A new job is consistent.
pub proof fn law_initially_consistent()
    ensures
        consistent(JobState::initial()),
{
}

/// No event makes a job inconsistent.
pub proof fn law_stays_consistent(env: JobEnv, s: JobState, event: JobEvent)
    requires
        consistent(s),
        possible(env, s, event),
    ensures
        consistent(step(env, s, event).state),
{
}

/// One step takes back no statement, no report and no seconding.
proof fn lemma_step_monotone(env: JobEnv, s: JobState, event: JobEvent)
    requires
        consistent(s),
        possible(env, s, event),
    ensures
        ({
            let next = step(env, s, event).state;
            &&& s.issued_validity.subset_of(next.issued_validity)
            &&& s.reported_misbehavior_for.subset_of(next.reported_misbehavior_for)
            &&& s.seconded is Some ==> next.seconded == s.seconded
        }),
{
}

/// A job never takes back a statement, a report or a seconding: what it has issued and reported
/// only grows, and the candidate that it has seconded stays the one.
pub proof fn law_nothing_is_taken_back(
    env: JobEnv,
    states: Seq<JobState>,
    events: Seq<JobEvent>,
    i: int,
    j: int,
)
    requires
        is_trace(env, states, events),
        consistent(states[0]),
        0 <= i <= j < states.len(),
    ensures
        consistent(states[i]),
        consistent(states[j]),
        states[i].issued_validity.subset_of(states[j].issued_validity),
        states[i].reported_misbehavior_for.subset_of(states[j].reported_misbehavior_for),
        states[i].seconded is Some ==> states[j].seconded == states[i].seconded,
    decreases j,
{
    if i < j {
        law_nothing_is_taken_back(env, states, events, i, j - 1);
        let e = events[j - 1];
        law_stays_consistent(env, states[j - 1], e);
        lemma_step_monotone(env, states[j - 1], e);
    } else if j > 0 {
        law_nothing_is_taken_back(env, states, events, j - 1, j - 1);
        let e = events[j - 1];
        law_stays_consistent(env, states[j - 1], e);
    }
}

/// The statement of having seconded a candidate is only signed where none has been seconded and no
/// statement has been issued on the candidate.
proof fn lemma_sign_seconded(
    env: JobEnv,
    s: JobState,
    event: JobEvent,
    candidate: Arc<AbridgedCandidateReceipt>,
)
    requires
        consistent(s),
        possible(env, s, event),
        step(env, s, event).action == ActionView::Sign(Statement::Seconded(candidate)),
    ensures
        s.phase == (Phase::SecondStore { candidate }),
        event matches JobEvent::Replied(Reply::Sent(Ok(_))),
        s.seconded is None,
        !s.issued_validity.contains(candidate.hash),
{
}

/// A job that has seconded a candidate never signs that it seconds one again.
pub proof fn law_seconds_at_most_one(
    env: JobEnv,
    states: Seq<JobState>,
    events: Seq<JobEvent>,
    i: int,
    j: int,
    candidate: Arc<AbridgedCandidateReceipt>,
)
    requires
        is_trace(env, states, events),
        consistent(states[0]),
        0 <= i <= j < events.len(),
        states[i].seconded is Some,
    ensures
        action_at(env, states, events, j) != ActionView::Sign(Statement::Seconded(candidate)),
{
    law_nothing_is_taken_back(env, states, events, i, j);
    let e = events[j];
    if action_at(env, states, events, j) == ActionView::Sign(Statement::Seconded(candidate)) {
        lemma_sign_seconded(env, states[j], e, candidate);
    }
}

/// A job that has issued a statement on a candidate, whatever it says, never signs after that that
/// it seconds the candidate.
pub proof fn law_no_seconding_after_a_statement(
    env: JobEnv,
    states: Seq<JobState>,
    events: Seq<JobEvent>,
    i: int,
    j: int,
    candidate: Arc<AbridgedCandidateReceipt>,
)
    requires
        is_trace(env, states, events),
        consistent(states[0]),
        0 <= i <= j < events.len(),
        states[i].issued_validity.contains(candidate.hash),
    ensures
        action_at(env, states, events, j) != ActionView::Sign(Statement::Seconded(candidate)),
{
    law_nothing_is_taken_back(env, states, events, i, j);
    let e = events[j];
    if action_at(env, states, events, j) == ActionView::Sign(Statement::Seconded(candidate)) {
        lemma_sign_seconded(env, states[j], e, candidate);
    }
}

/// The candidate that a statement is about.
pub open spec fn subject(statement: Statement) -> H256 {
    match statement {
        Statement::Seconded(candidate) => candidate.hash,
        Statement::Valid(hash) => hash,
        Statement::Invalid(hash) => hash,
    }
}

/// Whatever a job signs, it has issued a statement on the candidate from then on.
pub proof fn law_signing_is_remembered(env: JobEnv, s: JobState, event: JobEvent, hash: H256)
    requires
        consistent(s),
        possible(env, s, event),
        step(env, s, event).action matches ActionView::Sign(statement) && subject(statement)
            == hash,
    ensures
        step(env, s, event).state.issued_validity.contains(hash),
{
}

/// A request to second a candidate changes nothing and sets no work in motion once a candidate has
/// been seconded, or a statement has been issued on this one.
pub proof fn law_second_is_ignored(
    env: JobEnv,
    s: JobState,
    candidate: Arc<AbridgedCandidateReceipt>,
    pov: Arc<PoVBlock>,
)
    requires
        s.phase is Idle,
        s.seconded is Some || s.issued_validity.contains(candidate.hash),
    ensures
        on_second(env, s, candidate, pov) == (JobStep { state: s, action: ActionView::Receive }),
{
}

/// That a candidate is seconded is only signed after a request to second it, a validation that
/// found it valid, and its chunks being encoded and stored, one right after the other.
pub proof fn law_seconded_only_when_valid(
    env: JobEnv,
    states: Seq<JobState>,
    events: Seq<JobEvent>,
    i: int,
    candidate: Arc<AbridgedCandidateReceipt>,
)
    requires
        is_trace(env, states, events),
        states[0] == JobState::initial(),
        0 <= i < events.len(),
        action_at(env, states, events, i) == ActionView::Sign(Statement::Seconded(candidate)),
    ensures
        i >= 3,
        events[i - 3] matches JobEvent::Received(Some(ToJob::CandidateBacking(
            CandidateBackingMessage::Second(_, asked, _),
        ))) && asked == candidate,
        events[i - 2] matches JobEvent::Replied(Reply::Validation(Ok((valid, _, _)))) && valid
            == ValidationResult::Valid,
        events[i - 1] matches JobEvent::Replied(Reply::Chunks(Ok(_))),
        events[i] matches JobEvent::Replied(Reply::Sent(Ok(_))),
{
    law_nothing_is_taken_back(env, states, events, i, i);
    let e = events[i];
    lemma_sign_seconded(env, states[i], e, candidate);
    assert(i > 0);
    let e1 = events[i - 1];
    assert(states[i - 1].phase == Phase::SecondChunks { candidate });
    assert(i > 1);
    let e2 = events[i - 2];
    assert(states[i - 2].phase matches Phase::SecondValidation { candidate: c, .. } && c
        == candidate);
    assert(i > 2);
    let e3 = events[i - 3];
}

/// The statement that a job is about to spread was signed before: the job has asked for a signature
/// under just this payload, has put the signature under it that it was given, and names itself as
/// the sender.
pub proof fn law_only_signed_statements_are_spread(
    env: JobEnv,
    states: Seq<JobState>,
    events: Seq<JobEvent>,
    i: int,
    parent: H256,
    signed: SignedFullStatement,
)
    requires
        is_trace(env, states, events),
        states[0] == JobState::initial(),
        0 <= i < events.len(),
        sends(
            action_at(env, states, events, i),
            FromJob::StatementDistribution(StatementDistributionMessage::Share(parent, signed)),
        ),
    ensures
        parent == env.parent,
        signed.validator_index == env.table_context.validator->0.index,
        exists|k: int|
            0 <= k < i && #[trigger] action_at(env, states, events, k) == ActionView::Sign(
                signed.payload,
            ) && events[k + 1] == JobEvent::Replied(Reply::Signature(signed.signature)),
{
    let message = FromJob::StatementDistribution(
        StatementDistributionMessage::Share(parent, signed),
    );
    let e = events[i];
    lemma_share_phase(env, states[i], e, message);
    match states[i].phase {
        Phase::KickOffSign { statement } => {
            assert(i > 0);
            let e1 = events[i - 1];
            assert(action_at(env, states, events, i - 1) == ActionView::Sign(signed.payload));
        },
        _ => {
            assert(i > 0);
            let e1 = events[i - 1];
            assert(states[i - 1].phase is Reports);
            assert(i > 1);
            let e2 = events[i - 2];
            assert(states[i - 2].phase is Import);
            assert(i > 2);
            let e3 = events[i - 3];
            assert(states[i - 3].phase is SecondSign);
            assert(i > 3);
            let e4 = events[i - 4];
            assert(action_at(env, states, events, i - 4) == ActionView::Sign(signed.payload));
        },
    }
}

/// Whether the action has the message sent, with others or alone.
pub open spec fn sends(action: ActionView, message: FromJob) -> bool {
    action matches ActionView::Send(messages) && messages.contains(message)
}

/// Statements are spread at two points of the protocol only, one at a time.
proof fn lemma_share_phase(env: JobEnv, s: JobState, event: JobEvent, message: FromJob)
    requires
        possible(env, s, event),
        message is StatementDistribution,
        sends(step(env, s, event).action, message),
    ensures
        match s.phase {
            Phase::KickOffSign { statement } => event matches JobEvent::Replied(Reply::Signature(
                signature,
            )) && message == share_message(
                env,
                signed_by_us(env, statement, signature),
            ),
            Phase::ReportsSent {
                purpose: ImportPurpose::Second { signed, .. },
                ..
            } => message == share_message(env, signed),
            _ => false,
        },
        step(env, s, event).action == ActionView::Send(seq![message]),
{
    let sent = step(env, s, event).action->Send_0;
    let place = choose|k: int| 0 <= k < sent.len() && sent[k] == message;
    match (s.phase, event) {
        (Phase::Reports { .. }, JobEvent::Replied(Reply::Reports(reports))) => {
            lemma_report_messages(env.parent, reports@);
            assert(sent == report_messages(env.parent, reports@));
        },
        (Phase::SecondChunks { .. }, JobEvent::Replied(Reply::Chunks(Ok((chunks, proofs))))) => {
            assert(sent == chunk_messages(env.parent, chunks@, proofs@));
        },
        (Phase::SecondValidation { candidate, .. }, _) => {
            assert(sent == seq![invalid_notice(env, candidate)]);
        },
        (Phase::KickOffSign { statement }, JobEvent::Replied(Reply::Signature(signature))) => {
            assert(sent == seq![share_message(env, signed_by_us(env, statement, signature))]);
        },
        (Phase::ReportsSent { purpose: ImportPurpose::Second { signed, .. }, .. }, _) => {
            assert(sent == seq![share_message(env, signed)]);
        },
        _ => {},
    }
}

/// Reports go to the provisioner.
proof fn lemma_report_messages(parent: H256, reports: Seq<Option<MisbehaviorReport>>)
    ensures
        forall|i: int|
            0 <= i < report_messages(parent, reports).len() ==> (
            #[trigger] report_messages(parent, reports)[i]) is Provisioner,
    decreases reports.len(),
{
    if reports.len() > 0 {
        lemma_report_messages(parent, reports.drop_last());
    }
}

/// Nothing that goes wrong with a request to second ends the job.
pub proof fn law_second_never_ends_the_job(
    env: JobEnv,
    s: JobState,
    reply: Reply,
    result: Result<(), Error>,
)
    requires
        acceptable(env, s, reply),
        seconding(s.phase) is Some,
    ensures
        on_reply(env, s, reply).action != ActionView::Finish(result),
        !(on_reply(env, s, reply).state.phase is Finished),
{
}

/// A statement is imported only when we have just signed it, or when it has just come in and its
/// signature matches the key of its sender.
pub proof fn law_only_checked_statements_are_imported(
    env: JobEnv,
    states: Seq<JobState>,
    events: Seq<JobEvent>,
    i: int,
    statement: TableSignedStatement,
)
    requires
        is_trace(env, states, events),
        states[0] == JobState::initial(),
        0 <= i < events.len(),
        action_at(env, states, events, i) == ActionView::Import(statement),
    ensures
        i > 0,
        match events[i] {
            JobEvent::Replied(Reply::Signature(signature)) => {
                &&& action_at(env, states, events, i - 1) matches ActionView::Sign(payload)
                &&& statement == table_statement(signed_by_us(env, payload, signature))
            },
            JobEvent::Replied(Reply::SignatureCheck(matches)) => {
                &&& matches
                &&& events[i - 1] matches JobEvent::Received(Some(ToJob::CandidateBacking(
                    CandidateBackingMessage::Statement(_, received),
                )))
                &&& received.validator_index < env.table_context.validators@.len()
                &&& action_at(env, states, events, i - 1) == (ActionView::CheckSignature {
                    signing_context: env.table_context.signing_context,
                    key: env.table_context.validators@[received.validator_index as int],
                    statement: received,
                })
                &&& statement == table_statement(received)
            },
            _ => false,
        },
{
    let e = events[i];
    assert(i > 0);
    let e1 = events[i - 1];
}

/// Reports are asked for on different validators.
proof fn lemma_records_are_distinct(
    env: JobEnv,
    states: Seq<JobState>,
    events: Seq<JobEvent>,
    i: int,
    records: Seq<FromTableMisbehavior>,
)
    requires
        is_trace(env, states, events),
        0 <= i < events.len(),
        action_at(env, states, events, i) == ActionView::BuildReports(records),
    ensures
        forall|a: int, b: int|
            0 <= a < b < records.len() ==> (#[trigger] records[a]).id != (#[trigger] records[b]).id,
{
    let e = events[i];
    let misbehaving = e->Replied_0->misbehaving@;
    let reported = states[i].reported_misbehavior_for;
    lemma_new_offenders(misbehaving, reported);
    let offenders = new_offenders(misbehaving, reported);
    assert(records == misbehavior_records(env.table_context, offenders));
    assert forall|a: int, b: int| 0 <= a < b < records.len() implies (#[trigger] records[a]).id != (
    #[trigger] records[b]).id by {
        assert(records[a].id == offenders[a]);
        assert(records[b].id == offenders[b]);
    }
}

/// No validator is reported twice: the records that reports are drawn up from at two points of the
/// life of a job have no validator in common, and none has a validator twice.
pub proof fn law_nobody_is_reported_twice(
    env: JobEnv,
    states: Seq<JobState>,
    events: Seq<JobEvent>,
    i: int,
    j: int,
    first: Seq<FromTableMisbehavior>,
    second: Seq<FromTableMisbehavior>,
)
    requires
        is_trace(env, states, events),
        consistent(states[0]),
        0 <= i < j < events.len(),
        action_at(env, states, events, i) == ActionView::BuildReports(first),
        action_at(env, states, events, j) == ActionView::BuildReports(second),
    ensures
        forall|a: int, b: int|
            0 <= a < first.len() && 0 <= b < second.len() ==> (#[trigger] first[a]).id != (
            #[trigger] second[b]).id,
        forall|a: int, b: int|
            0 <= a < b < first.len() ==> (#[trigger] first[a]).id != (#[trigger] first[b]).id,
{
    let e = events[i];
    let f = events[j];
    law_nothing_is_taken_back(env, states, events, i + 1, j);
    let m1 = e->Replied_0->misbehaving@;
    let m2 = f->Replied_0->misbehaving@;
    let r1 = states[i].reported_misbehavior_for;
    let r2 = states[j].reported_misbehavior_for;
    lemma_new_offenders(m1, r1);
    lemma_new_offenders(m2, r2);
    let n1 = new_offenders(m1, r1);
    let n2 = new_offenders(m2, r2);
    assert(first == misbehavior_records(env.table_context, n1));
    assert(second == misbehavior_records(env.table_context, n2));
    assert forall|a: int, b: int| 0 <= a < first.len() && 0 <= b < second.len() implies (
    #[trigger] first[a]).id != (#[trigger] second[b]).id by {
        assert(first[a].id == n1[a]);
        assert(second[b].id == n2[b]);
        assert(n1.contains(n1[a]));
        assert(n2.contains(n2[b]));
        assert(m1.contains(n1[a]));
        assert(m1.to_set().contains(n1[a]));
        assert(states[i + 1].reported_misbehavior_for.contains(n1[a]));
        assert(r2.contains(n1[a]));
    }
    lemma_records_are_distinct(env, states, events, i, first);
}

/// Whether the message at the place, among those that are sent for the reports, is the report that
/// was drawn up from the record.
pub open spec fn drawn_up_from(
    parent: H256,
    messages: Seq<FromJob>,
    place: int,
    reports: Seq<Option<MisbehaviorReport>>,
    record: int,
) -> bool {
    &&& 0 <= record < reports.len()
    &&& reports[record] matches Some(report)
    &&& place == report_messages(parent, reports.take(record)).len()
    &&& place < messages.len()
    &&& messages[place] == report_message(parent, report)
}

/// Whether the message at the place, among those that the job sends at a point of its life, is a
/// report on the validator, drawn up from the record that the job has handed out on it.
pub open spec fn reports_on(
    env: JobEnv,
    states: Seq<JobState>,
    events: Seq<JobEvent>,
    i: int,
    place: int,
    record: int,
    id: ValidatorIndex,
) -> bool {
    &&& 0 < i < events.len()
    &&& action_at(env, states, events, i - 1) matches ActionView::BuildReports(records)
    &&& events[i] matches JobEvent::Replied(Reply::Reports(reports))
    &&& action_at(env, states, events, i) matches ActionView::Send(messages)
    &&& reports@.len() == records.len()
    &&& drawn_up_from(env.parent, messages, place, reports@, record)
    &&& records[record] == misbehavior_record(env.table_context, id)
}

/// Each message that is sent for the reports was drawn up from one of the records.
proof fn lemma_drawn_up_from(
    parent: H256,
    reports: Seq<Option<MisbehaviorReport>>,
    place: int,
) -> (record: int)
    requires
        0 <= place < report_messages(parent, reports).len(),
    ensures
        drawn_up_from(parent, report_messages(parent, reports), place, reports, record),
    decreases reports.len(),
{
    let shorter = reports.drop_last();
    let before = report_messages(parent, shorter);
    let last = reports.len() - 1;
    if place == before.len() {
        assert(reports.take(last) =~= shorter);
        last
    } else {
        let record = lemma_drawn_up_from(parent, shorter, place);
        assert(reports.take(record) =~= shorter.take(record));
        record
    }
}

/// Whatever a job sends to the provisioner is a report on a validator that was new to it when the
/// last statement was imported, drawn up from a record with the key of the validator.
pub proof fn law_provisioner_is_sent_reports(
    env: JobEnv,
    states: Seq<JobState>,
    events: Seq<JobEvent>,
    i: int,
    messages: Seq<FromJob>,
    place: int,
)
    requires
        is_trace(env, states, events),
        states[0] == JobState::initial(),
        0 <= i < events.len(),
        action_at(env, states, events, i) == ActionView::Send(messages),
        0 <= place < messages.len(),
        messages[place] is Provisioner,
    ensures
        exists|record: int, id: ValidatorIndex| #[trigger]
            reports_on(env, states, events, i, place, record, id) && !states[i
                - 1].reported_misbehavior_for.contains(id),
{
    let e = events[i];
    assert(states[i].phase is Reports);
    assert(i > 0);
    let reports = e->Replied_0->Reports_0@;
    let k = lemma_drawn_up_from(env.parent, reports, place);
    let before = events[i - 1];
    assert(states[i - 1].phase is Import);
    let misbehaving = before->Replied_0->misbehaving;
    let reported = states[i - 1].reported_misbehavior_for;
    lemma_new_offenders(misbehaving@, reported);
    assert(misbehaving@.len() == misbehaving.len());
    let offenders = new_offenders(misbehaving@, reported);
    let records = misbehavior_records(env.table_context, offenders);
    assert(action_at(env, states, events, i - 1) == ActionView::BuildReports(records));
    assert(offenders.contains(offenders[k]));
    assert(reports_on(env, states, events, i, place, k, offenders[k]));
}

/// A job sends at most one report on each validator.
pub proof fn law_at_most_one_report_on_each(
    env: JobEnv,
    states: Seq<JobState>,
    events: Seq<JobEvent>,
    i: int,
    place: int,
    record: int,
    j: int,
    other_place: int,
    other_record: int,
    id: ValidatorIndex,
)
    requires
        is_trace(env, states, events),
        consistent(states[0]),
        reports_on(env, states, events, i, place, record, id),
        reports_on(env, states, events, j, other_place, other_record, id),
    ensures
        i == j,
        place == other_place,
{
    let first = action_at(env, states, events, i - 1)->BuildReports_0;
    let second = action_at(env, states, events, j - 1)->BuildReports_0;
    assert(first[record].id == second[other_record].id);
    if i < j {
        law_nobody_is_reported_twice(env, states, events, i - 1, j - 1, first, second);
    } else if j < i {
        law_nobody_is_reported_twice(env, states, events, j - 1, i - 1, second, first);
    } else {
        lemma_records_are_distinct(env, states, events, i - 1, first);
    }
}

/// The verdict on the candidate that the job was asked to second, from when it is known.
pub open spec fn verdict_of(phase: Phase) -> Option<ValidationResult> {
    match phase {
        Phase::SecondChunks { .. } => Some(ValidationResult::Valid),
        Phase::SecondStore { .. } => Some(ValidationResult::Valid),
        Phase::SecondInvalid { .. } => Some(ValidationResult::Invalid),
        Phase::SecondSign { valid, .. } => Some(valid),
        Phase::SecondShare { valid, .. } => Some(valid),
        Phase::Import { purpose: ImportPurpose::Second { valid, .. } } => Some(valid),
        Phase::Reports { purpose: ImportPurpose::Second { valid, .. }, .. } => Some(valid),
        Phase::ReportsSent { purpose: ImportPurpose::Second { valid, .. }, .. } => Some(valid),
        _ => None,
    }
}

/// After an invalid candidate, nothing is known but that a statement may have been issued on it.
proof fn lemma_invalid_changes_little(
    env: JobEnv,
    states: Seq<JobState>,
    events: Seq<JobEvent>,
    hash: H256,
    n: int,
)
    requires
        is_trace(env, states, events),
        consistent(states[0]),
        2 <= n < states.len(),
        seconding(states[2].phase) == Some(hash),
        verdict_of(states[2].phase) == Some(ValidationResult::Invalid),
        states[2].seconded is None,
        states[2].issued_validity == states[0].issued_validity,
        forall|i: int| #![trigger states[i]] 0 < i < n ==> !(states[i].phase is Idle),
    ensures
        states[n].seconded is None,
        states[n].issued_validity.subset_of(states[0].issued_validity.insert(hash)),
        states[n].phase is Idle || (seconding(states[n].phase) == Some(hash) && verdict_of(
            states[n].phase,
        ) == Some(ValidationResult::Invalid)),
    decreases n,
{
    if n > 2 {
        lemma_invalid_changes_little(env, states, events, hash, n - 1);
        law_nothing_is_taken_back(env, states, events, n - 1, n - 1);
        let before = states[n - 1];
        let e = events[n - 1];
        assert(!(before.phase is Idle));
    }
}

/// A job that was asked to second a candidate and found it invalid is as ready as before to second
/// another: whatever else happened to the invalid one, a request to second a candidate that no
/// statement has been issued on has that candidate validated.
pub proof fn law_invalid_candidate_leaves_room_for_another(
    env: JobEnv,
    states: Seq<JobState>,
    events: Seq<JobEvent>,
    candidate: Arc<AbridgedCandidateReceipt>,
    pov: Arc<PoVBlock>,
    other: Arc<AbridgedCandidateReceipt>,
    other_pov: Arc<PoVBlock>,
)
    requires
        is_trace(env, states, events),
        consistent(states[0]),
        events.len() >= 2,
        events[0] matches JobEvent::Received(Some(ToJob::CandidateBacking(
            CandidateBackingMessage::Second(_, asked, with),
        ))) && asked == candidate && with == pov,
        events[1] matches JobEvent::Replied(Reply::Validation(Ok((valid, _, _)))) && valid
            == ValidationResult::Invalid,
        forall|i: int| #![trigger states[i]] 0 < i < events.len() ==> !(states[i].phase is Idle),
        states.last().phase is Idle,
        other.hash != candidate.hash,
        !states[0].issued_validity.contains(other.hash),
    ensures
        states.last().seconded is None,
        on_second(env, states.last(), other, other_pov).action == ActionView::Request(
            validation_request(env, other, other_pov),
        ),
{
    let e0 = events[0];
    let e1 = events[1];
    let first = states[1];
    let second = states[2];
    lemma_invalid_changes_little(env, states, events, candidate.hash, states.len() - 1);
}

/// Whether the reply is an answer to the action.
pub open spec fn answers(action: ActionView, reply: Reply) -> bool {
    match action {
        ActionView::Receive => false,
        ActionView::Send(_) => reply is Sent,
        ActionView::Request(FromJob::CandidateValidation(_)) => reply is Validation,
        ActionView::Request(FromJob::PoVDistribution(_)) => reply is PoV,
        ActionView::Request(_) => false,
        ActionView::ObtainChunks { .. } => reply is Chunks,
        ActionView::Sign(_) => reply is Signature,
        ActionView::CheckSignature { .. } => reply is SignatureCheck,
        ActionView::Import(_) => reply is Imported,
        ActionView::BuildReports(_) => reply is Reports,
        ActionView::GetCandidate(_) => reply is Candidate,
        ActionView::GetProposed => reply is Proposed,
        ActionView::SendBacked { .. } => reply is Sent,
        ActionView::Finish(_) => false,
    }
}

/// A job waits for the answer to what it has asked for, for the next message when it has asked for
/// one, and for nothing when it is over.
pub proof fn law_actions_tell_what_is_awaited(
    env: JobEnv,
    s: JobState,
    event: JobEvent,
    reply: Reply,
)
    requires
        possible(env, s, event),
    ensures
        ({
            let next = step(env, s, event);
            &&& expects(next.state.phase, reply) <==> answers(next.action, reply)
            &&& next.state.phase is Idle <==> next.action is Receive
            &&& next.state.phase is Finished <==> next.action is Finish
        }),
{
}

/// An upper bound on the replies that it takes to be done with the message at hand.
pub open spec fn replies_left(phase: Phase) -> nat {
    match phase {
        Phase::Idle => 0,
        Phase::SecondValidation { .. } => 8,
        Phase::SecondChunks { .. } => 7,
        Phase::SecondStore { .. } => 6,
        Phase::SecondInvalid { .. } => 6,
        Phase::SecondSign { .. } => 5,
        Phase::SecondShare { .. } => 1,
        Phase::StatementCheck { .. } => 9,
        Phase::Import { purpose: ImportPurpose::Second { .. } } => 4,
        Phase::Import { purpose: ImportPurpose::Statement { .. } } => 8,
        Phase::Reports { purpose: ImportPurpose::Second { .. }, .. } => 3,
        Phase::Reports { purpose: ImportPurpose::Statement { .. }, .. } => 7,
        Phase::ReportsSent { purpose: ImportPurpose::Second { .. }, .. } => 2,
        Phase::ReportsSent { purpose: ImportPurpose::Statement { .. }, .. } => 6,
        Phase::KickOffCandidate => 5,
        Phase::KickOffPoV { .. } => 4,
        Phase::KickOffValidation { .. } => 3,
        Phase::KickOffSign { .. } => 2,
        Phase::KickOffShare => 1,
        Phase::WatchProposed { .. } => 2,
        Phase::WatchSend => 1,
        Phase::Finished => 0,
    }
}

/// A job is done with each message after nine replies at the most.
pub proof fn law_every_message_is_done_with(
    env: JobEnv,
    states: Seq<JobState>,
    events: Seq<JobEvent>,
)
    requires
        is_trace(env, states, events),
        forall|i: int| #![trigger events[i]] 0 <= i < events.len() ==> events[i] is Replied,
    ensures
        events.len() + replies_left(states.last().phase) <= replies_left(states[0].phase) <= 9,
    decreases events.len(),
{
    if events.len() > 0 {
        let shorter_states = states.drop_last();
        let shorter_events = events.drop_last();
        assert forall|i: int| #![trigger shorter_events[i]] 0 <= i < shorter_events.len() implies
            possible(env, shorter_states[i], shorter_events[i]) && shorter_states[i + 1] == step(
            env,
            shorter_states[i],
            shorter_events[i],
        ).state && shorter_events[i] is Replied by {
            let e = events[i];
        }
        law_every_message_is_done_with(env, shorter_states, shorter_events);
        let last = events[events.len() - 1];
        let s = states[events.len() - 1];
        assert(possible(env, s, last));
    }
}

/// Where this node is a validator, it has signed a statement on every candidate on which it has
/// issued one.
pub proof fn law_issued_means_signed(
    env: JobEnv,
    states: Seq<JobState>,
    events: Seq<JobEvent>,
    i: int,
    hash: H256,
)
    requires
        is_trace(env, states, events),
        states[0] == JobState::initial(),
        env.table_context.validator is Some,
        0 <= i < states.len(),
        states[i].issued_validity.contains(hash),
    ensures
        exists|k: int|
            0 <= k < i && ((#[trigger] action_at(env, states, events, k)) matches ActionView::Sign(
                statement,
            ) && subject(statement) == hash),
    decreases i,
{
    assert(i > 0);
    let e = events[i - 1];
    law_nothing_is_taken_back(env, states, events, i - 1, i - 1);
    if states[i - 1].issued_validity.contains(hash) {
        law_issued_means_signed(env, states, events, i - 1, hash);
        let k = choose|k: int|
            0 <= k < i - 1 && ((#[trigger] action_at(
                env,
                states,
                events,
                k,
            )) matches ActionView::Sign(statement) && subject(statement) == hash);
        assert(action_at(env, states, events, k) is Sign);
    } else {
        assert(action_at(env, states, events, i - 1) matches ActionView::Sign(statement) && subject(
            statement,
        ) == hash);
    }
}

/// Where this node is a validator, it has spread that it seconds the candidate that it takes for
/// seconded, and the message has gone out.
pub proof fn law_seconded_means_spread(
    env: JobEnv,
    states: Seq<JobState>,
    events: Seq<JobEvent>,
    i: int,
    hash: H256,
)
    requires
        is_trace(env, states, events),
        states[0] == JobState::initial(),
        env.table_context.validator is Some,
        0 <= i < states.len(),
        states[i].seconded == Some(hash),
    ensures
        exists|k: int, signed: SignedFullStatement|
            0 <= k && k + 1 < i && spreads(env, states, events, k, signed) && (
            signed.payload matches Statement::Seconded(candidate) && candidate.hash == hash),
    decreases i,
{
    assert(i > 0);
    let e = events[i - 1];
    law_nothing_is_taken_back(env, states, events, i - 1, i - 1);
    if states[i - 1].seconded is Some {
        assert(states[i - 1].seconded == Some(hash));
        law_seconded_means_spread(env, states, events, i - 1, hash);
        let (k, signed) = choose|k: int, signed: SignedFullStatement|
            0 <= k && k + 1 < i - 1 && spreads(env, states, events, k, signed) && (
            signed.payload matches Statement::Seconded(candidate) && candidate.hash == hash);
        assert(spreads(env, states, events, k, signed));
    } else {
        assert(states[i - 1].phase == (Phase::SecondShare {
            candidate_hash: hash,
            valid: ValidationResult::Valid,
        }));
        assert(i > 1);
        let e1 = events[i - 2];
        law_nothing_is_taken_back(env, states, events, i - 2, i - 2);
        assert(states[i - 2].phase is ReportsSent);
        let signed = states[i - 2].phase->ReportsSent_purpose->signed;
        assert(spreads(env, states, events, i - 2, signed));
    }
}

/// Whether the statement is spread at a point of the life of a job, and goes out.
pub open spec fn spreads(
    env: JobEnv,
    states: Seq<JobState>,
    events: Seq<JobEvent>,
    i: int,
    signed: SignedFullStatement,
) -> bool {
    &&& action_at(env, states, events, i) == ActionView::Send(seq![share_message(env, signed)])
    &&& events[i + 1] matches JobEvent::Replied(Reply::Sent(Ok(_)))
}

/// Once the statement that a job seconds a candidate has gone out, the job takes the candidate for
/// seconded, for good.
pub proof fn law_spread_means_seconded(
    env: JobEnv,
    states: Seq<JobState>,
    events: Seq<JobEvent>,
    k: int,
    i: int,
    signed: SignedFullStatement,
    candidate: Arc<AbridgedCandidateReceipt>,
)
    requires
        is_trace(env, states, events),
        consistent(states[0]),
        0 <= k && k + 2 <= i < states.len(),
        spreads(env, states, events, k, signed),
        signed.payload == Statement::Seconded(candidate),
    ensures
        states[i].seconded == Some(candidate.hash),
{
    let message = share_message(env, signed);
    let e = events[k];
    let e1 = events[k + 1];
    assert(seq![message][0] == message);
    law_nothing_is_taken_back(env, states, events, k, k);
    lemma_share_phase(env, states[k], e, message);
    assert(states[k + 1].phase == (Phase::SecondShare {
        candidate_hash: candidate.hash,
        valid: ValidationResult::Valid,
    }));
    law_nothing_is_taken_back(env, states, events, k + 2, i);
}

/// A job spreads at most one statement that it seconds a candidate: once such a statement has gone
/// out, the job sends no other.
pub proof fn law_one_seconding_is_spread(
    env: JobEnv,
    states: Seq<JobState>,
    events: Seq<JobEvent>,
    k: int,
    i: int,
    first: SignedFullStatement,
    second: SignedFullStatement,
)
    requires
        is_trace(env, states, events),
        consistent(states[0]),
        0 <= k < i < events.len(),
        spreads(env, states, events, k, first),
        first.payload is Seconded,
        second.payload is Seconded,
    ensures
        !sends(action_at(env, states, events, i), share_message(env, second)),
{
    let message = share_message(env, second);
    let e = events[i];
    let e0 = events[k];
    law_nothing_is_taken_back(env, states, events, i, i);
    if sends(action_at(env, states, events, i), message) {
        lemma_share_phase(env, states[i], e, message);
        if i == k + 1 {
            let shared = share_message(env, first);
            assert(seq![shared][0] == shared);
            law_nothing_is_taken_back(env, states, events, k, k);
            lemma_share_phase(env, states[k], e0, shared);
        } else {
            law_spread_means_seconded(env, states, events, k, i, first, first.payload->Seconded_0);
        }
    }
}

/// A candidate is checked on behalf of another validator only where that validator has seconded it
/// and the table counts it to the parachain of our assignment.
pub proof fn law_only_our_parachain_is_checked(
    env: JobEnv,
    s: JobState,
    event: JobEvent,
    hash: H256,
)
    requires
        possible(env, s, event),
        step(env, s, event).action == ActionView::GetCandidate(hash),
    ensures
        s.phase matches Phase::ReportsSent {
            purpose: ImportPurpose::Statement { statement },
            summary: Some(summary),
        } && statement.payload is Seconded && summary.candidate == hash && summary.group_id
            == env.assignment,
{
}

/// Whether the host has done its work without a hitch, and has found a validation to come out well
/// and a signature to match.
pub open spec fn goes_well(event: JobEvent) -> bool {
    match event {
        JobEvent::Received(_) => false,
        JobEvent::Replied(reply) => match reply {
            Reply::Sent(result) => result is Ok,
            Reply::Validation(result) => result matches Ok((valid, _, _)) && valid
                == ValidationResult::Valid,
            Reply::Chunks(result) => result is Ok,
            Reply::SignatureCheck(matches) => matches,
            Reply::Candidate(found) => found is Some,
            Reply::PoV(result) => result is Ok,
            _ => true,
        },
    }
}

/// A valid candidate that a validator is asked to second is seconded, where the validator has
/// seconded none and has issued no statement on it: when all goes well, the statement is signed,
/// imported and spread, and then the job has seconded the candidate.
pub proof fn law_valid_candidate_is_seconded(
    env: JobEnv,
    states: Seq<JobState>,
    events: Seq<JobEvent>,
    candidate: Arc<AbridgedCandidateReceipt>,
    pov: Arc<PoVBlock>,
)
    requires
        is_trace(env, states, events),
        env.table_context.validator is Some,
        states[0].seconded is None,
        !states[0].issued_validity.contains(candidate.hash),
        events.len() == 9,
        events[0] matches JobEvent::Received(Some(ToJob::CandidateBacking(
            CandidateBackingMessage::Second(_, asked, with),
        ))) && asked == candidate && with == pov,
        forall|i: int| #![trigger events[i]] 0 < i < events.len() ==> goes_well(events[i]),
    ensures
        states[9].phase is Idle,
        states[9].seconded == Some(candidate.hash),
        states[9].issued_validity == states[0].issued_validity.insert(candidate.hash),
        action_at(env, states, events, 0) == ActionView::Request(
            validation_request(env, candidate, pov),
        ),
        events[1] matches JobEvent::Replied(Reply::Validation(Ok((_, global, local)))) && {
            &&& action_at(env, states, events, 1) matches ActionView::ObtainChunks {
                n_validators,
                available_data,
            }
            &&& n_validators == env.table_context.validators@.len()
            &&& available_data.pov_block == pov
            &&& available_data.omitted_validation.global_validation == global
            &&& available_data.omitted_validation.local_validation == local
        },
        action_at(env, states, events, 3) == ActionView::Sign(Statement::Seconded(candidate)),
        events[4] matches JobEvent::Replied(Reply::Signature(signature)) && {
            let signed = signed_by_us(env, Statement::Seconded(candidate), signature);
            &&& action_at(env, states, events, 4) == ActionView::Import(table_statement(signed))
            &&& action_at(env, states, events, 7) == ActionView::Send(
                seq![share_message(env, signed)],
            )
        },
{
    let e0 = events[0];
    let e1 = events[1];
    let e2 = events[2];
    let e3 = events[3];
    let e4 = events[4];
    let e5 = events[5];
    let e6 = events[6];
    let e7 = events[7];
    let e8 = events[8];
    assert(states[1].phase is SecondValidation);
    assert(states[2].phase is SecondChunks);
    assert(states[3].phase is SecondStore);
    assert(states[4].phase is SecondSign);
    assert(states[5].phase is Import);
    assert(states[6].phase is Reports);
    assert(states[7].phase is ReportsSent);
    assert(states[8].phase is SecondShare);
}

/// An invalid candidate that a job is asked to second is reported to candidate selection, and a
/// validator whose messages go out then signs that it is invalid. A node that is no validator
/// issues nothing, and can be asked again.
pub proof fn law_invalid_candidate_is_denounced(
    env: JobEnv,
    states: Seq<JobState>,
    events: Seq<JobEvent>,
    candidate: Arc<AbridgedCandidateReceipt>,
    pov: Arc<PoVBlock>,
)
    requires
        is_trace(env, states, events),
        states[0].seconded is None,
        !states[0].issued_validity.contains(candidate.hash),
        events.len() == 3,
        events[0] matches JobEvent::Received(Some(ToJob::CandidateBacking(
            CandidateBackingMessage::Second(_, asked, with),
        ))) && asked == candidate && with == pov,
        events[1] matches JobEvent::Replied(Reply::Validation(Ok((valid, _, _)))) && valid
            == ValidationResult::Invalid,
        goes_well(events[2]),
    ensures
        action_at(env, states, events, 1) == ActionView::Send(
            seq![invalid_notice(env, candidate)],
        ),
        states[3].seconded is None,
        match env.table_context.validator {
            Some(_) => {
                &&& action_at(env, states, events, 2) == ActionView::Sign(
                    Statement::Invalid(candidate.hash),
                )
                &&& states[3].issued_validity == states[0].issued_validity.insert(candidate.hash)
            },
            None => {
                &&& action_at(env, states, events, 2) == ActionView::Receive
                &&& states[3] == states[0]
            },
        },
{
    let e0 = events[0];
    let e1 = events[1];
    let e2 = events[2];
    assert(states[1].phase is SecondValidation);
    assert(states[2].phase is SecondInvalid);
}

/// A candidate of our parachain that another validator has seconded is checked, and our verdict on
/// it is spread: where the host finds the candidate and its proof and all messages go out, a
/// validator signs and spreads what the validation says.
pub proof fn law_seconded_candidates_are_checked(
    env: JobEnv,
    states: Seq<JobState>,
    events: Seq<JobEvent>,
    seconded: Arc<AbridgedCandidateReceipt>,
    candidate: Arc<AbridgedCandidateReceipt>,
    pov: Arc<PoVBlock>,
    valid: ValidationResult,
)
    requires
        is_trace(env, states, events),
        env.table_context.validator is Some,
        events.len() == 10,
        events[0] matches JobEvent::Received(Some(ToJob::CandidateBacking(
            CandidateBackingMessage::Statement(_, statement),
        ))) && statement.payload == Statement::Seconded(seconded) && statement.validator_index
            < env.table_context.validators@.len(),
        forall|i: int|
            #![trigger events[i]]
            0 < i < events.len() && i != 7 ==> goes_well(events[i]),
        events[2] matches JobEvent::Replied(Reply::Imported { summary: Some(summary), .. })
            && summary.group_id == env.assignment && summary.candidate == candidate.hash,
        events[5] matches JobEvent::Replied(Reply::Candidate(Some(found))) && found == candidate,
        events[6] matches JobEvent::Replied(Reply::PoV(Ok(found))) && found == pov,
        events[7] matches JobEvent::Replied(Reply::Validation(Ok((outcome, _, _)))) && outcome
            == valid,
    ensures
        action_at(env, states, events, 4) == ActionView::GetCandidate(candidate.hash),
        action_at(env, states, events, 6) == ActionView::Request(
            validation_request(env, candidate, pov),
        ),
        action_at(env, states, events, 7) == ActionView::Sign(verdict(valid, candidate.hash)),
        events[8] matches JobEvent::Replied(Reply::Signature(signature)) && action_at(
            env,
            states,
            events,
            8,
        ) == ActionView::Send(
            seq![
                share_message(env, signed_by_us(env, verdict(valid, candidate.hash), signature)),
            ],
        ),
        states[10].phase is Idle,
        states[10].issued_validity == states[0].issued_validity.insert(candidate.hash),
        states[10].seconded == states[0].seconded,
{
    let e0 = events[0];
    let e1 = events[1];
    let e2 = events[2];
    let e3 = events[3];
    let e4 = events[4];
    let e5 = events[5];
    let e6 = events[6];
    let e7 = events[7];
    let e8 = events[8];
    let e9 = events[9];
    assert(states[1].phase is StatementCheck);
    assert(states[2].phase is Import);
    assert(states[3].phase is Reports);
    assert(states[4].phase is ReportsSent);
    assert(states[5].phase is KickOffCandidate);
    assert(states[6].phase is KickOffPoV);
    assert(states[7].phase is KickOffValidation);
    assert(states[8].phase is KickOffSign);
    assert(states[9].phase is KickOffShare);
}

/// A watcher is handed the candidates that the table proposes, in their backed form, and nothing
/// about the job changes.
pub proof fn law_watchers_are_served(
    env: JobEnv,
    states: Seq<JobState>,
    events: Seq<JobEvent>,
    watcher: WatcherId,
    proposed: Vec<TableAttestedCandidate>,
)
    requires
        is_trace(env, states, events),
        events.len() == 3,
        events[0] matches JobEvent::Received(Some(ToJob::CandidateBacking(
            CandidateBackingMessage::RegisterBackingWatcher(_, asked),
        ))) && asked == watcher,
        events[1] == JobEvent::Replied(Reply::Proposed(proposed)),
        goes_well(events[2]),
    ensures
        action_at(env, states, events, 1) == (ActionView::SendBacked {
            watcher,
            backed: backed_views(proposed@, env.table_context.group(env.assignment)),
        }),
        states[3] == states[0],
{
    let e0 = events[0];
    let e1 = events[1];
    let e2 = events[2];
    assert(states[1].phase is WatchProposed);
    assert(states[2].phase is WatchSend);
}

/// Whoever misbehaves by the table is reported: when a statement has been imported, a record is
/// made, with the key of the validator, of everyone who has not been reported before.
pub proof fn law_everyone_who_misbehaves_is_reported(
    env: JobEnv,
    s: JobState,
    summary: Option<TableSummary>,
    misbehaving: Vec<ValidatorIndex>,
    id: ValidatorIndex,
)
    requires
        s.phase is Import,
        misbehaving@.contains(id),
    ensures
        ({
            let next = on_reply(env, s, Reply::Imported { summary, misbehaving });
            &&& next.state.reported_misbehavior_for.contains(id)
            &&& next.action matches ActionView::BuildReports(records)
            &&& !s.reported_misbehavior_for.contains(id) <==> records.contains(
                misbehavior_record(env.table_context, id),
            )
        }),
{
    let reported = s.reported_misbehavior_for;
    lemma_new_offenders(misbehaving@, reported);
    let ids = new_offenders(misbehaving@, reported);
    let records = misbehavior_records(env.table_context, ids);
    let record = misbehavior_record(env.table_context, id);
    if ids.contains(id) {
        let k = choose|k: int| 0 <= k < ids.len() && ids[k] == id;
        assert(records[k] == record);
    }
    if records.contains(record) {
        let k = choose|k: int| 0 <= k < records.len() && records[k] == record;
        assert(records[k].id == ids[k]);
    }
}

/// What a signature scheme accepts: a signature under a statement, in a context, with a key.
pub type Scheme = spec_fn(SigningContext, ValidatorId, Statement, ValidatorSignature) -> bool;

/// The answer of a host that goes by the scheme to what a job asks for.
pub open spec fn checked_by(scheme: Scheme, action: ActionView) -> Reply {
    match action {
        ActionView::CheckSignature { signing_context, key, statement } => Reply::SignatureCheck(
            scheme(signing_context, key, statement.payload, statement.signature),
        ),
        _ => Reply::SignatureCheck(false),
    }
}

/// What a validator has signed, a job in the same context accepts. The signed statement keeps its
/// payload and names the validator as its sender, the job has it checked against the key of the
/// validator in the context that it was signed in, and where the scheme accepts the signature there
/// the job imports the statement.
pub proof fn law_signed_statements_are_accepted(
    signer: JobEnv,
    env: JobEnv,
    s: JobState,
    parent: H256,
    statement: Statement,
    signature: ValidatorSignature,
    scheme: Scheme,
)
    requires
        signer.table_context.validator matches Some(validator) && {
            &&& env.table_context.signing_context == validator.signing_context
            &&& validator.index < env.table_context.validators@.len()
            &&& env.table_context.validators@[validator.index as int] == validator.id
            &&& scheme(validator.signing_context, validator.id, statement, signature)
        },
        s.phase is Idle,
    ensures
        ({
            let validator = signer.table_context.validator->0;
            let signed = signed_by_us(signer, statement, signature);
            let received = on_received(
                env,
                s,
                Some(
                    ToJob::CandidateBacking(CandidateBackingMessage::Statement(parent, signed)),
                ),
            );
            let reply = checked_by(scheme, received.action);
            let next = on_reply(env, received.state, reply);
            &&& signed.payload == statement
            &&& signed.validator_index == validator.index
            &&& received.action == (ActionView::CheckSignature {
                signing_context: validator.signing_context,
                key: validator.id,
                statement: signed,
            })
            &&& acceptable(env, received.state, reply)
            &&& next.action == ActionView::Import(table_statement(signed))
            &&& next.state == (JobState {
                phase: Phase::Import { purpose: ImportPurpose::Statement { statement: signed } },
                ..s
            })
        }),
{
}

/// A statement that the scheme does not accept, with the key of its sender and in the context of
/// the job, ends the job and is not imported; so does one of a sender who is not in the validator
/// set.
pub proof fn law_other_statements_are_refused(
    env: JobEnv,
    s: JobState,
    parent: H256,
    signed: SignedFullStatement,
    scheme: Scheme,
)
    requires
        s.phase is Idle,
        signed.validator_index < env.table_context.validators@.len() ==> !scheme(
            env.table_context.signing_context,
            env.table_context.validators@[signed.validator_index as int],
            signed.payload,
            signed.signature,
        ),
    ensures
        ({
            let received = on_received(
                env,
                s,
                Some(
                    ToJob::CandidateBacking(CandidateBackingMessage::Statement(parent, signed)),
                ),
            );
            let refused = s.finish(Err(Error::InvalidSignature));
            if signed.validator_index < env.table_context.validators@.len() {
                on_reply(env, received.state, checked_by(scheme, received.action)) == refused
            } else {
                received == refused
            }
        }),
{
}

} // verus!
