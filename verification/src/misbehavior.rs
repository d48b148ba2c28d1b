//! Telling the block author of validators who misbehave.
use std::collections::HashSet;

use vstd::prelude::*;

use crate::messages::{FromJob, ProvisionableData, ProvisionerMessage};
use crate::primitives::{H256, MisbehaviorReport, SigningContext, ValidatorId, ValidatorIndex};
use crate::table::TableContext;

verus! {

broadcast use vstd::std_specs::hash::group_hash_axioms;

/// What a report on a validator is drawn up from, besides the evidence in the statement table.
#[derive(Clone, Copy, Debug, PartialEq, Eq)]
pub struct FromTableMisbehavior {
    pub id: ValidatorIndex,
    pub signing_context: SigningContext,
    pub key: ValidatorId,
}

/// The validators of the list that have not been reported yet, each once, in the order of the list.
pub open spec fn new_offenders(
    misbehaving: Seq<ValidatorIndex>,
    reported: Set<ValidatorIndex>,
) -> Seq<ValidatorIndex>
    decreases misbehaving.len(),
{
    if misbehaving.len() == 0 {
        Seq::empty()
    } else {
        let before = new_offenders(misbehaving.drop_last(), reported);
        let last = misbehaving.last();
        if reported.contains(last) || before.contains(last) {
            before
        } else {
            before.push(last)
        }
    }
}

/// What the report on a validator is drawn up from.
pub open spec fn misbehavior_record(
    table_context: TableContext,
    id: ValidatorIndex,
) -> FromTableMisbehavior {
    FromTableMisbehavior {
        id,
        signing_context: table_context.signing_context,
        key: table_context.validators@[id as int],
    }
}

/// What the reports on the validators are drawn up from.
pub open spec fn misbehavior_records(
    table_context: TableContext,
    ids: Seq<ValidatorIndex>,
) -> Seq<FromTableMisbehavior> {
    ids.map_values(|id: ValidatorIndex| misbehavior_record(table_context, id))
}

/// Whether every validator that is still to be reported is in the validator set.
pub open spec fn offenders_known(
    table_context: TableContext,
    misbehaving: Seq<ValidatorIndex>,
    reported: Set<ValidatorIndex>,
) -> bool {
    forall|i: int|
        0 <= i < misbehaving.len() && !reported.contains(#[trigger] misbehaving[i])
            ==> misbehaving[i] < table_context.validators@.len()
}

/// The message that hands a report to the provisioner.
pub open spec fn report_message(parent: H256, report: MisbehaviorReport) -> FromJob {
    FromJob::Provisioner(
        ProvisionerMessage::ProvisionableData(ProvisionableData::MisbehaviorReport(parent, report)),
    )
}

/// The messages that hand over those reports that could be drawn up.
pub open spec fn report_messages(
    parent: H256,
    reports: Seq<Option<MisbehaviorReport>>,
) -> Seq<FromJob>
    decreases reports.len(),
{
    if reports.len() == 0 {
        Seq::empty()
    } else {
        let before = report_messages(parent, reports.drop_last());
        match reports.last() {
            Some(report) => before.push(report_message(parent, report)),
            None => before,
        }
    }
}

/// The new offenders are those of the list that have not been reported.
pub proof fn lemma_new_offenders(misbehaving: Seq<ValidatorIndex>, reported: Set<ValidatorIndex>)
    ensures
        new_offenders(misbehaving, reported).no_duplicates(),
        new_offenders(misbehaving, reported).len() <= misbehaving.len(),
        forall|id: ValidatorIndex| #[trigger]
            new_offenders(misbehaving, reported).contains(id) <==> misbehaving.contains(id)
                && !reported.contains(id),
    decreases misbehaving.len(),
{
    if misbehaving.len() > 0 {
        let shorter = misbehaving.drop_last();
        let last = misbehaving.last();
        lemma_new_offenders(shorter, reported);
        let before = new_offenders(shorter, reported);
        assert forall|id: ValidatorIndex| #[trigger]
            new_offenders(misbehaving, reported).contains(id) <==> misbehaving.contains(id)
                && !reported.contains(id) by {
            assert(misbehaving =~= shorter.push(last));
            assert(misbehaving.contains(id) <==> shorter.contains(id) || id == last) by {
                if shorter.contains(id) {
                    let k = choose|k: int| 0 <= k < shorter.len() && shorter[k] == id;
                    assert(misbehaving[k] == id);
                }
                assert(misbehaving[shorter.len() as int] == last);
            }
            assert(before.contains(id) <==> shorter.contains(id) && !reported.contains(id));
            assert(before.contains(last) <==> shorter.contains(last) && !reported.contains(last));
            let pushed = before.push(last);
            assert(pushed.contains(id) <==> before.contains(id) || id == last) by {
                if before.contains(id) {
                    let k = choose|k: int| 0 <= k < before.len() && before[k] == id;
                    assert(pushed[k] == id);
                }
                assert(pushed[before.len() as int] == last);
            }
        }
    }
}

/// Picks out the validators that have not been reported yet, and marks them as reported.
pub fn issue_new_misbehaviors(
    table_context: &TableContext,
    reported_misbehavior_for: &mut HashSet<ValidatorIndex>,
    misbehaving: &Vec<ValidatorIndex>,
) -> (records: Vec<FromTableMisbehavior>)
    requires
        offenders_known(*table_context, misbehaving@, old(reported_misbehavior_for)@),
    ensures
        records@ == misbehavior_records(
            *table_context,
            new_offenders(misbehaving@, old(reported_misbehavior_for)@),
        ),
        final(reported_misbehavior_for)@ == old(reported_misbehavior_for)@.union(
            misbehaving@.to_set(),
        ),
{
    let ghost reported = reported_misbehavior_for@;
    let mut records: Vec<FromTableMisbehavior> = Vec::new();
    let mut i: usize = 0;
    assert(misbehaving@.take(0).to_set() =~= Set::empty());
    assert(reported_misbehavior_for@ =~= reported.union(misbehaving@.take(0).to_set()));
    while i < misbehaving.len()
        invariant
            0 <= i <= misbehaving@.len(),
            offenders_known(*table_context, misbehaving@, reported),
            records@ == misbehavior_records(
                *table_context,
                new_offenders(misbehaving@.take(i as int), reported),
            ),
            reported_misbehavior_for@ == reported.union(misbehaving@.take(i as int).to_set()),
        decreases misbehaving@.len() - i,
    {
        let k = misbehaving[i];
        let ghost seen = misbehaving@.take(i as int);
        let ghost with_next = misbehaving@.take(i + 1);
        proof {
            assert(with_next.drop_last() =~= seen);
            lemma_new_offenders(seen, reported);
            assert(with_next =~= seen.push(k));
            assert(seen.push(k).to_set() =~= seen.to_set().insert(k)) by {
                seen.lemma_push_to_set_commute(k);
            }
        }
        if !reported_misbehavior_for.contains(&k) {
            reported_misbehavior_for.insert(k);
            records.push(
                FromTableMisbehavior {
                    id: k,
                    signing_context: table_context.signing_context,
                    key: table_context.validators[k as usize],
                },
            );
        }
        assert(records@ =~= misbehavior_records(
            *table_context,
            new_offenders(with_next, reported),
        ));
        assert(reported_misbehavior_for@ =~= reported.union(with_next.to_set()));
        i = i + 1;
    }
    assert(misbehaving@.take(misbehaving@.len() as int) =~= misbehaving@);
    records
}

/// Hands a report to the provisioner.
pub fn send_to_provisioner(parent: H256, report: MisbehaviorReport) -> (message: FromJob)
    ensures
        message == report_message(parent, report),
{
    FromJob::Provisioner(
        ProvisionerMessage::ProvisionableData(ProvisionableData::MisbehaviorReport(parent, report)),
    )
}

/// Hands those reports to the provisioner that could be drawn up.
pub fn send_reports(parent: H256, reports: Vec<Option<MisbehaviorReport>>) -> (messages: Vec<
    FromJob,
>)
    ensures
        messages@ == report_messages(parent, reports@),
{
    let mut messages: Vec<FromJob> = Vec::new();
    for report in it: reports
        invariant
            it.seq() == reports@,
            messages@ == report_messages(parent, reports@.take(it.index())),
    {
        assert(reports@.take(it.index() + 1).drop_last() =~= reports@.take(it.index()));
        match report {
            Some(report) => {
                messages.push(send_to_provisioner(parent, report));
            },
            None => {},
        }
    }
    assert(reports@.take(reports@.len() as int) =~= reports@);
    messages
}

} // verus!
