//! Getting a backing job under way.
use std::collections::HashMap;
use std::sync::Arc;

use vstd::prelude::*;
use vstd::std_specs::iter::IteratorSpec;

use crate::bits::max_bits;
use crate::error::Error;
use crate::job::CandidateBackingJob;
use crate::messages::{FromJob, RuntimeApiMessage, RuntimeApiRequest};
use crate::primitives::{
    GroupIndex, H256, HeadData, ParaId, Validator, ValidatorId, ValidatorIndex,
};
use crate::protocol::{JobEnv, JobState};
use crate::table::{is_first_at, position, TableContext};

verus! {

broadcast use vstd::std_specs::hash::group_hash_axioms;

/// A parachain that is scheduled on a core, and the group that is to back its candidates.
#[derive(Clone, Copy, Debug, PartialEq, Eq)]
pub struct CoreAssignment {
    pub para_id: ParaId,
    pub group_idx: GroupIndex,
}

/// The validator groups of a block, and what they are scheduled on.
#[derive(Debug, PartialEq, Eq)]
pub struct SchedulerRoster {
    pub validator_groups: Vec<Vec<ValidatorIndex>>,
    pub scheduled: Vec<CoreAssignment>,
}

impl SchedulerRoster {
    /// Whether every group is small enough for one bit to be kept for each of its members.
    pub open spec fn groups_fit(self) -> bool {
        forall|i: int|
            0 <= i < self.validator_groups@.len() ==> (
            #[trigger] self.validator_groups@[i])@.len() <= max_bits()
    }

    /// Whether every group is small enough for one bit to be kept for each of its members.
    pub fn fits(&self) -> (ok: bool)
        ensures
            ok == self.groups_fit(),
    {
        let mut i: usize = 0;
        while i < self.validator_groups.len()
            invariant
                0 <= i <= self.validator_groups@.len(),
                forall|j: int|
                    0 <= j < i ==> (#[trigger] self.validator_groups@[j])@.len() <= max_bits(),
            decreases self.validator_groups@.len() - i,
        {
            if self.validator_groups[i].len() > usize::MAX / 8 {
                return false;
            }
            i = i + 1;
        }
        true
    }
}

/// The request to the runtime in the state of a block.
pub open spec fn runtime_request(parent: H256, request: RuntimeApiRequest) -> FromJob {
    FromJob::RuntimeApiMessage(RuntimeApiMessage::Request(parent, request))
}

/// What a job asks of the runtime before all else.
pub fn startup_requests(parent: H256) -> (requests: Vec<FromJob>)
    ensures
        requests@ == seq![
            runtime_request(parent, RuntimeApiRequest::Validators),
            runtime_request(parent, RuntimeApiRequest::ValidatorGroups),
            runtime_request(parent, RuntimeApiRequest::SigningContext),
        ],
{
    let mut requests: Vec<FromJob> = Vec::new();
    requests.push(
        FromJob::RuntimeApiMessage(
            RuntimeApiMessage::Request(parent, RuntimeApiRequest::Validators),
        ),
    );
    requests.push(
        FromJob::RuntimeApiMessage(
            RuntimeApiMessage::Request(parent, RuntimeApiRequest::ValidatorGroups),
        ),
    );
    requests.push(
        FromJob::RuntimeApiMessage(
            RuntimeApiMessage::Request(parent, RuntimeApiRequest::SigningContext),
        ),
    );
    requests
}

/// The members of the group that each parachain is scheduled with. The last assignment of a
/// parachain counts, and one to a group that does not exist counts for nothing.
pub open spec fn scheduled_groups(
    scheduled: Seq<CoreAssignment>,
    validator_groups: Seq<Vec<ValidatorIndex>>,
) -> Map<ParaId, Seq<ValidatorIndex>>
    decreases scheduled.len(),
{
    if scheduled.len() == 0 {
        Map::empty()
    } else {
        let before = scheduled_groups(scheduled.drop_last(), validator_groups);
        let last = scheduled.last();
        if last.group_idx < validator_groups.len() {
            before.insert(last.para_id, validator_groups[last.group_idx as int]@)
        } else {
            before
        }
    }
}

/// The groups of a map, each as the sequence of its members.
pub open spec fn members(groups: Map<ParaId, Vec<ValidatorIndex>>) -> Map<
    ParaId,
    Seq<ValidatorIndex>,
> {
    groups.map_values(|group: Vec<ValidatorIndex>| group@)
}

/// Whether the parachain can be the one that the validator is assigned to: one whose group has the
/// validator in it, or the default where there is none such.
pub open spec fn is_assignment(
    validators: Seq<ValidatorId>,
    id: ValidatorId,
    groups: Map<ParaId, Seq<ValidatorIndex>>,
    assignment: ParaId,
) -> bool {
    if exists|i: int, para: ParaId| assigned(validators, id, groups, i, para) {
        exists|i: int| assigned(validators, id, groups, i, assignment)
    } else {
        assignment == 0
    }
}

/// Whether the validator stands at the index of the validator set, for the first time, and is in
/// the group of the parachain under that index.
pub open spec fn assigned(
    validators: Seq<ValidatorId>,
    id: ValidatorId,
    groups: Map<ParaId, Seq<ValidatorIndex>>,
    i: int,
    para: ParaId,
) -> bool {
    &&& is_first_at(validators, id, i)
    &&& groups.contains_key(para)
    &&& groups[para].contains(i as u32)
}

/// Collects the group of each scheduled parachain.
pub fn collect_groups(roster: &SchedulerRoster) -> (groups: HashMap<ParaId, Vec<ValidatorIndex>>)
    ensures
        members(groups@) == scheduled_groups(roster.scheduled@, roster.validator_groups@),
{
    let mut groups: HashMap<ParaId, Vec<ValidatorIndex>> = HashMap::new();
    let mut i: usize = 0;
    assert(members(groups@) =~= Map::empty());
    while i < roster.scheduled.len()
        invariant
            0 <= i <= roster.scheduled@.len(),
            members(groups@) == scheduled_groups(
                roster.scheduled@.take(i as int),
                roster.validator_groups@,
            ),
        decreases roster.scheduled@.len() - i,
    {
        let assignment = roster.scheduled[i];
        let idx = assignment.group_idx as usize;
        assert(roster.scheduled@.take(i + 1).drop_last() =~= roster.scheduled@.take(i as int));
        let ghost before = groups@;
        if idx < roster.validator_groups.len() {
            let group = roster.validator_groups[idx].clone();
            assert(group@ =~= roster.validator_groups@[idx as int]@);
            groups.insert(assignment.para_id, group);
            assert(members(groups@) =~= members(before).insert(assignment.para_id, group@));
        }
        i = i + 1;
    }
    assert(roster.scheduled@.take(roster.scheduled@.len() as int) =~= roster.scheduled@);
    groups
}

/// Looks for a parachain whose group has the validator in it.
fn find_group(groups: &HashMap<ParaId, Vec<ValidatorIndex>>, idx: ValidatorIndex) -> (para: Option<
    ParaId,
>)
    ensures
        match para {
            Some(p) => groups@.contains_key(p) && groups@[p]@.contains(idx),
            None => forall|p: ParaId| #[trigger]
                groups@.contains_key(p) ==> !groups@[p]@.contains(idx),
        },
{
    for (para_id, group) in it: groups.iter()
        invariant
            it.seq() == groups.iter().remaining(),
            forall|j: int|
                0 <= j < it.index() ==> !(#[trigger] it.seq()[j]).1@.contains(idx),
    {
        if position(group, idx).is_some() {
            return Some(*para_id);
        }
    }
    None
}

/// Looks for the place of a validator in the validator set.
fn find_validator(validators: &Vec<ValidatorId>, id: &ValidatorId) -> (place: Option<usize>)
    ensures
        match place {
            Some(i) => is_first_at(validators@, *id, i as int),
            None => !validators@.contains(*id),
        },
{
    let mut i: usize = 0;
    while i < validators.len()
        invariant
            0 <= i <= validators@.len(),
            forall|j: int| 0 <= j < i ==> validators@[j] != *id,
        decreases validators@.len() - i,
    {
        if validators[i] == *id {
            return Some(i);
        }
        i = i + 1;
    }
    None
}

/// Picks the parachain that a validator is assigned to. Where the validator is in more than one
/// group, any of their parachains may be picked.
pub fn find_assignment(
    validators: &Vec<ValidatorId>,
    id: &ValidatorId,
    groups: &HashMap<ParaId, Vec<ValidatorIndex>>,
) -> (assignment: ParaId)
    ensures
        is_assignment(validators@, *id, members(groups@), assignment),
{
    let ghost by_para = members(groups@);
    match find_validator(validators, id) {
        Some(place) => {
            let idx = #[verifier::truncate]
            (place as u32);
            assert forall|i: int| is_first_at(validators@, *id, i) implies i == place by {
                if i < place {
                    assert(validators@[i] != *id);
                }
                if place < i {
                    assert(validators@[place as int] != *id);
                }
            }
            match find_group(groups, idx) {
                Some(para) => {
                    assert(assigned(validators@, *id, by_para, place as int, para));
                    para
                },
                None => {
                    assert forall|i: int, para: ParaId|
                        !assigned(validators@, *id, by_para, i, para) by {
                        if assigned(validators@, *id, by_para, i, para) {
                            assert(groups@.contains_key(para));
                        }
                    }
                    0
                },
            }
        },
        None => {
            assert forall|i: int, para: ParaId|
                !assigned(validators@, *id, by_para, i, para) by {
                if assigned(validators@, *id, by_para, i, para) {
                    assert(validators@.contains(validators@[i]));
                }
            }
            0
        },
    }
}

/// A job that knows its validators and its parachain, and waits for the head of the parachain.
pub struct JobSetup {
    /// The relay chain block that the job is to work on.
    pub parent: H256,
    /// The parachain that this node is assigned to.
    pub assignment: ParaId,
    /// What the statement table is to know of the validators.
    pub table_context: TableContext,
}

impl JobSetup {
    /// Takes the answers of the runtime, and the identity of this node among the validators. An
    /// error there ends the job before it has begun.
    pub fn prepare(
        parent: H256,
        prepared: Result<(Vec<ValidatorId>, SchedulerRoster, Validator), Error>,
    ) -> (setup: Result<Self, Error>)
        requires
            prepared matches Ok((_, roster, _)) ==> roster.groups_fit(),
        ensures
            match prepared {
                Ok((validators, roster, validator)) => {
                    &&& setup matches Ok(setup)
                    &&& setup.parent == parent
                    &&& setup.table_context.validators == validators
                    &&& setup.table_context.validator == Some(validator)
                    &&& setup.table_context.signing_context == validator.signing_context
                    &&& members(setup.table_context.groups@) == scheduled_groups(
                        roster.scheduled@,
                        roster.validator_groups@,
                    )
                    &&& setup.table_context.groups_fit()
                    &&& is_assignment(
                        validators@,
                        validator.id,
                        scheduled_groups(roster.scheduled@, roster.validator_groups@),
                        setup.assignment,
                    )
                },
                Err(e) => setup == Err::<Self, Error>(e),
            },
    {
        match prepared {
            Ok((validators, roster, validator)) => {
                let groups = collect_groups(&roster);
                let assignment = find_assignment(&validators, &validator.id, &groups);
                let table_context = TableContext {
                    signing_context: validator.signing_context,
                    validator: Some(validator),
                    groups,
                    validators,
                };
                proof {
                    lemma_groups_fit(roster.scheduled@, roster);
                    assert forall|para: ParaId| #[trigger]
                        table_context.groups@.contains_key(para) implies table_context.groups@[para]@.len()
                        <= max_bits() by {
                        assert(members(table_context.groups@).contains_key(para));
                    }
                }
                Ok(JobSetup { parent, assignment, table_context })
            },
            Err(e) => Err(e),
        }
    }

    /// The request for the head of the parachain.
    pub fn head_data_request(&self) -> (request: FromJob)
        ensures
            request == runtime_request(self.parent, RuntimeApiRequest::HeadData(self.assignment)),
    {
        FromJob::RuntimeApiMessage(
            RuntimeApiMessage::Request(self.parent, RuntimeApiRequest::HeadData(self.assignment)),
        )
    }

    /// Takes the head of the parachain, and begins the work.
    pub fn begin(self, head_data: Result<HeadData, Error>) -> (job: Result<
        CandidateBackingJob,
        Error,
    >)
        requires
            self.table_context.groups_fit(),
        ensures
            match head_data {
                Ok(head_data) => {
                    &&& job matches Ok(job)
                    &&& job.wf()
                    &&& job.env() == (JobEnv {
                        parent: self.parent,
                        head_data: Arc::new(head_data),
                        assignment: self.assignment,
                        table_context: self.table_context,
                    })
                    &&& job@ == JobState::initial()
                },
                Err(e) => job == Err::<CandidateBackingJob, Error>(e),
            },
    {
        match head_data {
            Ok(head_data) => Ok(
                CandidateBackingJob::new(
                    self.parent,
                    Arc::new(head_data),
                    self.assignment,
                    self.table_context,
                ),
            ),
            Err(e) => Err(e),
        }
    }
}

/// Groups that are small enough stay so when they are collected by parachain.
proof fn lemma_groups_fit(scheduled: Seq<CoreAssignment>, roster: SchedulerRoster)
    requires
        roster.groups_fit(),
    ensures
        forall|para: ParaId| #[trigger]
            scheduled_groups(scheduled, roster.validator_groups@).contains_key(para)
                ==> scheduled_groups(scheduled, roster.validator_groups@)[para].len() <= max_bits(),
    decreases scheduled.len(),
{
    if scheduled.len() > 0 {
        lemma_groups_fit(scheduled.drop_last(), roster);
        let before = scheduled_groups(scheduled.drop_last(), roster.validator_groups@);
        let last = scheduled.last();
        assert forall|para: ParaId| #[trigger]
            scheduled_groups(scheduled, roster.validator_groups@).contains_key(para) implies
            scheduled_groups(scheduled, roster.validator_groups@)[para].len() <= max_bits() by {
            if last.group_idx < roster.validator_groups@.len() && para == last.para_id {
                assert(roster.validator_groups@[last.group_idx as int]@.len() <= max_bits());
            } else {
                assert(before.contains_key(para));
            }
        }
    }
}

} // verus!
