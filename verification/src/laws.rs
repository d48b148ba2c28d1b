//! What holds of quorums, of votes, of messages and of the way in which jobs are set up.
use std::sync::Arc;

use vstd::prelude::*;
use vstd::set_lib::lemma_len_subset;
use vstd::std_specs::convert::{FromSpec, TryFromSpec};

use crate::availability::{chunk_message, chunk_messages};
use crate::backed::{backed_view, backed_views, voter_bits, voters};
use crate::bits::bits_of;
use crate::messages::{
    AllMessages, AvailabilityStoreMessage, CandidateBackingMessage, FromJob, NewBackedCandidate,
    ProvisionableData, ProvisionerMessage, RuntimeApiMessage, RuntimeApiRequest, WatcherId,
};
use crate::misbehavior::{
    lemma_new_offenders, misbehavior_records, new_offenders, report_messages, FromTableMisbehavior,
};
use crate::primitives::{
    AbridgedCandidateReceipt, ErasureChunk, H256, MisbehaviorReport, ParaId, PoVBlock,
    SignedFullStatement, Statement, ValidatorId, ValidatorIndex,
};
use crate::protocol::{Action, ActionView};
use crate::startup::{
    assigned, is_assignment, members, runtime_request, scheduled_groups, CoreAssignment,
    SchedulerRoster,
};
use crate::table::{
    is_first_at, quorum, table_statement, TableAttestedCandidate, TableContext, TableStatement,
};

verus! {

/// A quorum is the least number that is more than half of a group, and every group but the empty
/// one has a quorum.
pub proof fn law_quorum_is_a_majority(n_validators: nat)
    ensures
        2 * quorum(n_validators) > n_validators,
        2 * (quorum(n_validators) - 1) <= n_validators,
        quorum(n_validators) <= n_validators <==> n_validators > 0,
{
}

/// Any two quorums of a group have a member in common.
pub proof fn law_quorums_meet(
    group: Set<ValidatorIndex>,
    first: Set<ValidatorIndex>,
    second: Set<ValidatorIndex>,
)
    requires
        group.finite(),
        first.subset_of(group),
        second.subset_of(group),
        first.len() >= quorum(group.len()),
        second.len() >= quorum(group.len()),
    ensures
        exists|member: ValidatorIndex| first.contains(member) && second.contains(member),
{
    broadcast use vstd::set_lib::group_set_lib_default;

    vstd::set_lib::lemma_set_subset_finite(group, first);
    vstd::set_lib::lemma_set_subset_finite(group, second);
    if first.disjoint(second) {
        vstd::set_lib::lemma_set_disjoint_lens(first, second);
        assert((first + second).subset_of(group));
        lemma_len_subset(first + second, group);
    }
}

/// In a group without repetitions, a bit is set exactly where the member has voted.
pub proof fn law_bits_mark_the_voters(
    group: Seq<ValidatorIndex>,
    voters: Seq<ValidatorIndex>,
    i: int,
)
    requires
        group.no_duplicates(),
        0 <= i < group.len(),
    ensures
        voter_bits(group, voters).len() == group.len(),
        voter_bits(group, voters)[i] == voters.contains(group[i]),
{
}

/// The number of bits that are set.
pub open spec fn count_ones(bits: Seq<bool>) -> nat
    decreases bits.len(),
{
    if bits.len() == 0 {
        0
    } else {
        count_ones(bits.drop_last()) + if bits.last() {
            1nat
        } else {
            0nat
        }
    }
}

/// Of the first places of a group, so many bits are set as voters stand there.
proof fn lemma_count_voters(
    group: Seq<ValidatorIndex>,
    voters: Seq<ValidatorIndex>,
    n: int,
)
    requires
        0 <= n <= group.len(),
    ensures
        voters.to_set().intersect(group.take(n).to_set()).finite(),
        count_ones(voter_bits(group, voters).take(n)) == voters.to_set().intersect(
            group.take(n).to_set(),
        ).len(),
    decreases n,
{
    vstd::seq_lib::seq_to_set_is_finite(voters);
    let bits = voter_bits(group, voters);
    if n == 0 {
        assert(voters.to_set().intersect(group.take(0).to_set()) =~= Set::empty());
    } else {
        lemma_count_voters(group, voters, n - 1);
        assert(bits.take(n).drop_last() =~= bits.take(n - 1));
        let before = voters.to_set().intersect(group.take(n - 1).to_set());
        let after = voters.to_set().intersect(group.take(n).to_set());
        let member = group[n - 1];
        assert(group.take(n) =~= group.take(n - 1).push(member));
        group.take(n - 1).lemma_push_to_set_commute(member);
        let earlier = group.take(n - 1);
        if earlier.contains(member) {
            let k = choose|k: int| 0 <= k < earlier.len() && earlier[k] == member;
            assert(group[k] == member);
            assert(!is_first_at(group, member, n - 1));
            assert(after =~= before);
        } else {
            assert forall|j: int| 0 <= j < n - 1 implies group[j] != member by {
                assert(earlier[j] == group[j]);
            }
            assert(is_first_at(group, member, n - 1));
            if voters.contains(member) {
                assert(after =~= before.insert(member));
                assert(!before.contains(member));
            } else {
                assert(after =~= before);
            }
        }
    }
}

/// As many bits are set as there are members of the group who have voted. Votes from outside the
/// group, and votes and members that come more than once, add nothing.
pub proof fn law_bits_count_the_voters(group: Seq<ValidatorIndex>, voters: Seq<ValidatorIndex>)
    ensures
        count_ones(voter_bits(group, voters)) == voters.to_set().intersect(group.to_set()).len(),
{
    lemma_count_voters(group, voters, group.len() as int);
    assert(group.take(group.len() as int) =~= group);
    assert(voter_bits(group, voters).take(group.len() as int) =~= voter_bits(group, voters));
}

/// Where the voters are distinct members of a group, there are as many bits set as there are votes.
pub proof fn law_one_bit_for_each_vote(group: Seq<ValidatorIndex>, voters: Seq<ValidatorIndex>)
    requires
        voters.no_duplicates(),
        forall|i: int| 0 <= i < voters.len() ==> group.contains(#[trigger] voters[i]),
    ensures
        count_ones(voter_bits(group, voters)) == voters.len(),
{
    law_bits_count_the_voters(group, voters);
    assert(voters.to_set().intersect(group.to_set()) =~= voters.to_set());
    voters.unique_seq_to_set();
}

/// A message of a job can be told from what the node is sent, and is the one that was sent.
pub proof fn law_messages_of_jobs_are_recognised(message: FromJob)
    ensures
        FromJob::try_from_spec(AllMessages::from_spec(message)) == Ok::<FromJob, &'static str>(
            message,
        ),
{
}

/// What is recognised as the message of a job is that message, and only messages of a kind that no
/// job sends are not recognised.
pub proof fn law_recognised_messages_are_of_jobs(message: AllMessages)
    ensures
        match FromJob::try_from_spec(message) {
            Ok(from_job) => AllMessages::from_spec(from_job) == message,
            Err(_) => message is Other,
        },
{
}

/// The group of a parachain is the one of its last assignment to a group that exists.
pub proof fn law_last_assignment_counts(
    scheduled: Seq<CoreAssignment>,
    validator_groups: Seq<Vec<ValidatorIndex>>,
    i: int,
)
    requires
        0 <= i < scheduled.len(),
        scheduled[i].group_idx < validator_groups.len(),
        forall|j: int|
            i < j < scheduled.len() && (#[trigger] scheduled[j]).para_id == scheduled[i].para_id
                ==> scheduled[j].group_idx >= validator_groups.len(),
    ensures
        ({
            let groups = scheduled_groups(scheduled, validator_groups);
            let para = scheduled[i].para_id;
            &&& groups.contains_key(para)
            &&& groups[para] == validator_groups[scheduled[i].group_idx as int]@
        }),
    decreases scheduled.len(),
{
    if i < scheduled.len() - 1 {
        let shorter = scheduled.drop_last();
        assert forall|j: int|
            i < j < shorter.len() && (#[trigger] shorter[j]).para_id
                == shorter[i].para_id implies shorter[j].group_idx >= validator_groups.len() by {
            assert(shorter[j] == scheduled[j]);
        }
        law_last_assignment_counts(shorter, validator_groups, i);
        assert(scheduled[scheduled.len() - 1] == scheduled.last());
    }
}

/// Only parachains that are scheduled with a group that exists have a group.
pub proof fn law_only_scheduled_parachains_have_groups(
    scheduled: Seq<CoreAssignment>,
    validator_groups: Seq<Vec<ValidatorIndex>>,
    para: ParaId,
)
    requires
        scheduled_groups(scheduled, validator_groups).contains_key(para),
    ensures
        exists|i: int|
            0 <= i < scheduled.len() && (#[trigger] scheduled[i]).para_id == para
                && scheduled[i].group_idx < validator_groups.len(),
    decreases scheduled.len(),
{
    if scheduled.len() > 0 {
        let last = scheduled[scheduled.len() - 1];
        if !(last.para_id == para && last.group_idx < validator_groups.len()) {
            let shorter = scheduled.drop_last();
            law_only_scheduled_parachains_have_groups(shorter, validator_groups, para);
            let i = choose|i: int|
                0 <= i < shorter.len() && (#[trigger] shorter[i]).para_id == para
                    && shorter[i].group_idx < validator_groups.len();
            assert(scheduled[i] == shorter[i]);
        }
    }
}

/// A validator who is in the group of one parachain only is assigned to that parachain.
pub proof fn law_sole_group_is_the_assignment(
    validators: Seq<ValidatorId>,
    id: ValidatorId,
    groups: Map<ParaId, Seq<ValidatorIndex>>,
    place: int,
    para: ParaId,
    assignment: ParaId,
)
    requires
        is_first_at(validators, id, place),
        groups.contains_key(para),
        groups[para].contains(place as u32),
        forall|other: ParaId| #[trigger]
            groups.contains_key(other) && other != para ==> !groups[other].contains(place as u32),
        is_assignment(validators, id, groups, assignment),
    ensures
        assignment == para,
{
    assert(assigned(validators, id, groups, place, para));
    let i = choose|i: int| assigned(validators, id, groups, i, assignment);
    assert(assigned(validators, id, groups, i, assignment));
    if i < place {
        assert(validators[i] != id);
    }
    if place < i {
        assert(validators[place] != id);
    }
}

/// The place of an item in a list is the first at which it stands.
pub proof fn law_first_place(items: Seq<ValidatorIndex>, item: ValidatorIndex, place: int)
    ensures
        is_first_at(items, item, place) <==> 0 <= place < items.len() && items[place] == item
            && !items.take(place).contains(item),
{
    if 0 <= place < items.len() {
        let before = items.take(place);
        if is_first_at(items, item, place) && before.contains(item) {
            let k = choose|k: int| 0 <= k < before.len() && before[k] == item;
            assert(items[k] == item);
        }
        if !before.contains(item) {
            assert forall|j: int| 0 <= j < place implies items[j] != item by {
                assert(before[j] == items[j]);
            }
        }
    }
}

/// Every validator is given the chunk of its own index, under that index and with the proof of that
/// chunk, as far as there are both chunks and proofs; and nothing else is stored.
pub proof fn law_each_validator_is_given_its_chunk(
    parent: H256,
    chunks: Seq<Vec<u8>>,
    proofs: Seq<Vec<Vec<u8>>>,
)
    ensures
        chunk_messages(parent, chunks, proofs).len() <= chunks.len(),
        chunk_messages(parent, chunks, proofs).len() <= proofs.len(),
        chunk_messages(parent, chunks, proofs).len() == chunks.len() || chunk_messages(
            parent,
            chunks,
            proofs,
        ).len() == proofs.len(),
        forall|i: int|
            0 <= i < chunks.len() && i < proofs.len() ==> (#[trigger] chunk_messages(
                parent,
                chunks,
                proofs,
            )[i]) == FromJob::AvailabilityStore(
                AvailabilityStoreMessage::StoreChunk(
                    parent,
                    i as u32,
                    ErasureChunk { chunk: chunks[i], index: i as u32, proof: proofs[i] },
                ),
            ),
{
}

/// The message that stores one chunk names the validator twice: as its receiver and in the chunk.
pub proof fn law_a_chunk_is_stored_as_it_is(
    parent: H256,
    index: int,
    chunk: Vec<u8>,
    proof: Vec<Vec<u8>>,
)
    ensures
        chunk_message(parent, index, chunk, proof) matches FromJob::AvailabilityStore(
            AvailabilityStoreMessage::StoreChunk(on, receiver, stored),
        ) && on == parent && receiver == index as u32 && stored.index == index as u32
            && stored.chunk == chunk && stored.proof == proof,
{
}

/// Every report that could be drawn up is sent to the provisioner, whatever it says: the messages
/// are those reports, one for one and in their order.
pub proof fn law_every_report_is_sent(parent: H256, reports: Seq<Option<MisbehaviorReport>>)
    ensures
        report_messages(parent, reports) == reports.filter(
            |report: Option<MisbehaviorReport>| report is Some,
        ).map_values(
            |report: Option<MisbehaviorReport>|
                FromJob::Provisioner(
                    ProvisionerMessage::ProvisionableData(
                        ProvisionableData::MisbehaviorReport(parent, report->0),
                    ),
                ),
        ),
        forall|k: int|
            0 <= k < reports.len() && (#[trigger] reports[k]) is Some ==> report_messages(
                parent,
                reports,
            ).contains(
                FromJob::Provisioner(
                    ProvisionerMessage::ProvisionableData(
                        ProvisionableData::MisbehaviorReport(parent, reports[k]->0),
                    ),
                ),
            ),
    decreases reports.len(),
{
    let made = |report: Option<MisbehaviorReport>| report is Some;
    let sent = |report: Option<MisbehaviorReport>|
        FromJob::Provisioner(
            ProvisionerMessage::ProvisionableData(
                ProvisionableData::MisbehaviorReport(parent, report->0),
            ),
        );
    reveal(Seq::filter);
    if reports.len() > 0 {
        let shorter = reports.drop_last();
        law_every_report_is_sent(parent, shorter);
        let before = report_messages(parent, shorter);
        let all = report_messages(parent, reports);
        assert(all =~= reports.filter(made).map_values(sent));
        assert forall|k: int| 0 <= k < reports.len() && (#[trigger] reports[k]) is Some implies
            all.contains(sent(reports[k])) by {
            let message = sent(reports[k]);
            if k < shorter.len() {
                assert(shorter[k] == reports[k]);
                let place = choose|p: int| 0 <= p < before.len() && before[p] == message;
                assert(all[place] == message);
            } else {
                assert(all[before.len() as int] == message);
            }
        }
    } else {
        assert(report_messages(parent, reports) =~= reports.filter(made).map_values(sent));
    }
}

/// Of everyone who misbehaves and has not been reported a record is made, and of nobody else, and
/// of nobody twice. A record holds the index of the validator, the key that stands at this index,
/// and the context of the signatures.
pub proof fn law_records_are_of_the_new_offenders(
    table_context: TableContext,
    misbehaving: Seq<ValidatorIndex>,
    reported: Set<ValidatorIndex>,
)
    ensures
        ({
            let records = misbehavior_records(table_context, new_offenders(misbehaving, reported));
            &&& forall|id: ValidatorIndex|
                misbehaving.contains(id) && !reported.contains(id) <==> #[trigger] records.contains(
                    FromTableMisbehavior {
                        id,
                        signing_context: table_context.signing_context,
                        key: table_context.validators@[id as int],
                    },
                )
            &&& forall|k: int|
                0 <= k < records.len() ==> (#[trigger] records[k]) == (FromTableMisbehavior {
                    id: records[k].id,
                    signing_context: table_context.signing_context,
                    key: table_context.validators@[records[k].id as int],
                })
            &&& forall|a: int, b: int|
                0 <= a < b < records.len() ==> (#[trigger] records[a]).id != (
                #[trigger] records[b]).id
        }),
{
    lemma_new_offenders(misbehaving, reported);
    let ids = new_offenders(misbehaving, reported);
    let records = misbehavior_records(table_context, ids);
    assert forall|id: ValidatorIndex|
        misbehaving.contains(id) && !reported.contains(id) <==> #[trigger] records.contains(
            FromTableMisbehavior {
                id,
                signing_context: table_context.signing_context,
                key: table_context.validators@[id as int],
            },
        ) by {
        let record = FromTableMisbehavior {
            id,
            signing_context: table_context.signing_context,
            key: table_context.validators@[id as int],
        };
        if ids.contains(id) {
            let k = choose|k: int| 0 <= k < ids.len() && ids[k] == id;
            assert(records[k] == record);
        }
        if records.contains(record) {
            let k = choose|k: int| 0 <= k < records.len() && records[k] == record;
            assert(records[k].id == ids[k]);
            assert(ids.contains(ids[k]));
        }
    }
    assert forall|a: int, b: int| 0 <= a < b < records.len() implies (#[trigger] records[a]).id != (
    #[trigger] records[b]).id by {
        assert(records[a].id == ids[a]);
        assert(records[b].id == ids[b]);
    }
}

/// A backed candidate carries every vote of the attested one, in order, and a bit for every place
/// of the group: a bit is set where one of the voters stands for the first time.
pub proof fn law_backed_candidate_carries_every_vote(
    attested: TableAttestedCandidate,
    group: Seq<ValidatorIndex>,
)
    ensures
        ({
            let backed = backed_view(attested, group);
            let votes = attested.validity_votes@;
            &&& backed.candidate == attested.candidate
            &&& backed.validity_votes.len() == votes.len()
            &&& forall|i: int|
                0 <= i < votes.len() ==> (#[trigger] backed.validity_votes[i]) == votes[i].1
            &&& backed.validator_indices.len() == group.len()
            &&& forall|i: int|
                0 <= i < group.len() ==> ((#[trigger] backed.validator_indices[i]) <==> (exists|
                    k: int,
                |
                    0 <= k < votes.len() && (#[trigger] votes[k]).0 == group[i]) && (forall|j: int|
                    0 <= j < i ==> group[j] != group[i]))
        }),
{
    let votes = attested.validity_votes@;
    let ids = voters(votes);
    let backed = backed_view(attested, group);
    assert forall|i: int| 0 <= i < group.len() implies ((#[trigger] backed.validator_indices[i])
        <==> (exists|k: int| 0 <= k < votes.len() && (#[trigger] votes[k]).0 == group[i]) && (
    forall|j: int| 0 <= j < i ==> group[j] != group[i])) by {
        if ids.contains(group[i]) {
            let k = choose|k: int| 0 <= k < ids.len() && ids[k] == group[i];
            assert(votes[k].0 == group[i]);
        }
        if exists|k: int| 0 <= k < votes.len() && (#[trigger] votes[k]).0 == group[i] {
            let k = choose|k: int| 0 <= k < votes.len() && (#[trigger] votes[k]).0 == group[i];
            assert(ids[k] == group[i]);
        }
    }
}

/// Where the votes are of distinct members of the group, a backed candidate has as many votes as
/// bits that are set.
pub proof fn law_as_many_votes_as_bits(
    attested: TableAttestedCandidate,
    group: Seq<ValidatorIndex>,
)
    requires
        forall|a: int, b: int|
            0 <= a < b < attested.validity_votes@.len() ==> (
            #[trigger] attested.validity_votes@[a]).0 != (#[trigger] attested.validity_votes@[b]).0,
        forall|a: int|
            0 <= a < attested.validity_votes@.len() ==> group.contains(
                (#[trigger] attested.validity_votes@[a]).0,
            ),
    ensures
        count_ones(backed_view(attested, group).validator_indices) == backed_view(
            attested,
            group,
        ).validity_votes.len(),
{
    let votes = attested.validity_votes@;
    let ids = voters(votes);
    assert forall|a: int, b: int| 0 <= a < b < ids.len() implies ids[a] != ids[b] by {
        assert(votes[a].0 != votes[b].0);
    }
    assert forall|a: int| 0 <= a < ids.len() implies group.contains(#[trigger] ids[a]) by {
        assert(group.contains(votes[a].0));
    }
    law_one_bit_for_each_vote(group, ids);
}

/// All that the table proposes is backed, in order, with the group of the parachain; where the
/// parachain has no group, nothing is.
pub proof fn law_all_that_is_proposed_is_backed(
    proposed: Seq<TableAttestedCandidate>,
    group: Seq<ValidatorIndex>,
)
    ensures
        backed_views(proposed, Some(group)).len() == proposed.len(),
        forall|k: int|
            0 <= k < proposed.len() ==> (#[trigger] backed_views(proposed, Some(group))[k])
                == backed_view(proposed[k], group),
        backed_views(proposed, None).len() == 0,
{
}

/// What is said of a backed candidate is said of the receipt, the votes and the bits in it.
pub proof fn law_backed_candidate_is_what_it_holds(backed: NewBackedCandidate)
    ensures
        backed@.candidate == backed.0.candidate,
        backed@.validity_votes == backed.0.validity_votes@,
        backed@.validator_indices == bits_of(backed.0.validator_indices),
        backed.0.validator_indices@ == bits_of(backed.0.validator_indices),
{
}

/// What is said of an action is said of what the host is handed.
pub proof fn law_action_is_what_it_holds(action: Action)
    ensures
        match action {
            Action::Receive => action@ is Receive,
            Action::Send(messages) => action@ == ActionView::Send(messages@),
            Action::Request(message) => action@ == ActionView::Request(message),
            Action::ObtainChunks { n_validators, available_data } => {
                action@ matches ActionView::ObtainChunks { n_validators: n, available_data: d } && n
                    == n_validators && d == available_data
            },
            Action::Sign(statement) => action@ == ActionView::Sign(statement),
            Action::CheckSignature { signing_context, key, statement } => {
                action@ matches ActionView::CheckSignature {
                    signing_context: c,
                    key: k,
                    statement: s,
                } && c == signing_context && k == key && s == statement
            },
            Action::Import(statement) => action@ == ActionView::Import(statement),
            Action::BuildReports(records) => action@ == ActionView::BuildReports(records@),
            Action::GetCandidate(hash) => action@ == ActionView::GetCandidate(hash),
            Action::GetProposed => action@ is GetProposed,
            Action::SendBacked { watcher, backed } => {
                &&& action@ matches ActionView::SendBacked { watcher: w, backed: views }
                &&& w == watcher
                &&& views.len() == backed@.len()
                &&& forall|k: int|
                    0 <= k < backed@.len() ==> {
                        &&& (#[trigger] views[k]).candidate == backed@[k].0.candidate
                        &&& views[k].validity_votes == backed@[k].0.validity_votes@
                        &&& views[k].validator_indices == bits_of(backed@[k].0.validator_indices)
                    }
            },
            Action::Finish(result) => action@ == ActionView::Finish(result),
        },
{
}

/// The group of a parachain has the members that are listed for it.
pub proof fn law_group_is_as_listed(table_context: TableContext, para: ParaId)
    ensures
        match table_context.group(para) {
            Some(group) => table_context.groups@.contains_key(para) && group
                == table_context.groups@[para]@,
            None => !table_context.groups@.contains_key(para),
        },
{
}

/// Groups are as they were listed when they are looked at as sequences.
pub proof fn law_members_are_as_listed(groups: Map<ParaId, Vec<ValidatorIndex>>, para: ParaId)
    ensures
        members(groups).contains_key(para) <==> groups.contains_key(para),
        groups.contains_key(para) ==> members(groups)[para] == groups[para]@,
{
}

/// A job takes any groups that have no more members than a `BitVec` can hold bits.
pub proof fn law_groups_may_be_large(table_context: TableContext, roster: SchedulerRoster)
    ensures
        table_context.groups_fit() <==> forall|para: ParaId| #[trigger]
            table_context.groups@.contains_key(para) ==> table_context.groups@[para]@.len()
                <= usize::MAX / 8,
        roster.groups_fit() <==> forall|i: int|
            0 <= i < roster.validator_groups@.len() ==> (
            #[trigger] roster.validator_groups@[i])@.len() <= usize::MAX / 8,
{
}

/// A statement keeps what it says, its signature and its sender in the table.
pub proof fn law_statement_is_the_same_in_the_table(s: SignedFullStatement)
    ensures
        table_statement(s).signature == s.signature,
        table_statement(s).sender == s.validator_index,
        match s.payload {
            Statement::Seconded(candidate) => table_statement(s).statement
                == TableStatement::Candidate(candidate),
            Statement::Valid(hash) => table_statement(s).statement == TableStatement::Valid(hash),
            Statement::Invalid(hash) => table_statement(s).statement == TableStatement::Invalid(
                hash,
            ),
        },
{
}

/// A message of a job is passed on to the part of the node that it is for, as it is.
pub proof fn law_message_is_passed_on_as_it_is(message: FromJob)
    ensures
        AllMessages::from_spec(message) == match message {
            FromJob::AvailabilityStore(msg) => AllMessages::AvailabilityStore(msg),
            FromJob::RuntimeApiMessage(msg) => AllMessages::RuntimeApi(msg),
            FromJob::CandidateValidation(msg) => AllMessages::CandidateValidation(msg),
            FromJob::CandidateSelection(msg) => AllMessages::CandidateSelection(msg),
            FromJob::Provisioner(msg) => AllMessages::Provisioner(msg),
            FromJob::PoVDistribution(msg) => AllMessages::PoVDistribution(msg),
            FromJob::StatementDistribution(msg) => AllMessages::StatementDistribution(msg),
        },
        FromJob::try_from_spec(AllMessages::Other) == Err::<FromJob, &'static str>(
            "can't convert this AllMessages variant to FromJob",
        ),
{
}

/// A message is about the block that it names.
pub proof fn law_message_is_about_its_block(
    parent: H256,
    candidate: Arc<AbridgedCandidateReceipt>,
    pov: Arc<PoVBlock>,
    signed: SignedFullStatement,
    watcher: WatcherId,
)
    ensures
        CandidateBackingMessage::Second(parent, candidate, pov).spec_relay_parent() == parent,
        CandidateBackingMessage::Statement(parent, signed).spec_relay_parent() == parent,
        CandidateBackingMessage::RegisterBackingWatcher(parent, watcher).spec_relay_parent()
            == parent,
{
}

/// A request to the runtime is made in the state of the block that the job works on.
pub proof fn law_runtime_is_asked_on_the_block(parent: H256, request: RuntimeApiRequest)
    ensures
        runtime_request(parent, request) == FromJob::RuntimeApiMessage(
            RuntimeApiMessage::Request(parent, request),
        ),
{
}

/// The parachain that a validator is assigned to is one whose group has the validator in it, under
/// the first index at which its key stands. Only where there is no such parachain it is the zeroth.
pub proof fn law_assignment_has_the_validator(
    validators: Seq<ValidatorId>,
    id: ValidatorId,
    groups: Map<ParaId, Seq<ValidatorIndex>>,
    assignment: ParaId,
)
    requires
        is_assignment(validators, id, groups, assignment),
    ensures
        ({
            &&& groups.contains_key(assignment)
            &&& exists|i: int|
                0 <= i < validators.len() && (#[trigger] validators[i]) == id && (forall|j: int|
                    0 <= j < i ==> validators[j] != id) && groups[assignment].contains(i as u32)
        }) || (assignment == 0 && forall|i: int, para: ParaId|
            0 <= i < validators.len() && (#[trigger] validators[i]) == id && (forall|j: int|
                0 <= j < i ==> validators[j] != id) && #[trigger] groups.contains_key(para)
                ==> !groups[para].contains(i as u32)),
{
    if exists|i: int, para: ParaId| assigned(validators, id, groups, i, para) {
        let i = choose|i: int| assigned(validators, id, groups, i, assignment);
        assert(assigned(validators, id, groups, i, assignment));
        assert(validators[i] == id);
    } else {
        assert forall|i: int, para: ParaId|
            0 <= i < validators.len() && (#[trigger] validators[i]) == id && (forall|j: int|
                0 <= j < i ==> validators[j] != id) && #[trigger] groups.contains_key(
                para,
            ) implies !groups[para].contains(i as u32) by {
            assert(!assigned(validators, id, groups, i, para));
        }
    }
}

/// Those who are to be reported come in the order in which they are first named: naming one more
/// validator adds it at the end, unless it has been reported or named before.
pub proof fn law_offenders_come_in_order(
    misbehaving: Seq<ValidatorIndex>,
    reported: Set<ValidatorIndex>,
    id: ValidatorIndex,
)
    ensures
        new_offenders(Seq::empty(), reported) == Seq::<ValidatorIndex>::empty(),
        new_offenders(misbehaving.push(id), reported) == if reported.contains(id)
            || misbehaving.contains(id) {
            new_offenders(misbehaving, reported)
        } else {
            new_offenders(misbehaving, reported).push(id)
        },
{
    lemma_new_offenders(misbehaving, reported);
    assert(misbehaving.push(id).drop_last() =~= misbehaving);
}

/// A bit is set exactly where somebody who has voted stands in the group for the first time.
pub proof fn law_bits_mark_first_places(
    group: Seq<ValidatorIndex>,
    voters: Seq<ValidatorIndex>,
    i: int,
)
    requires
        0 <= i < group.len(),
    ensures
        voter_bits(group, voters).len() == group.len(),
        voter_bits(group, voters)[i] <==> voters.contains(group[i]) && forall|j: int|
            0 <= j < i ==> group[j] != group[i],
{
}

} // verus!
