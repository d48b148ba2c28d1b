//! Starting, stopping and setting up jobs.
use candidate_backing::digests::{DigestMap, DigestSet};
use candidate_backing::error::Error;
use candidate_backing::jobs::{JobHandle, Jobs, StreamYield, CHANNEL_CAPACITY};
use candidate_backing::messages::{
    AllMessages, CandidateBackingMessage, FromJob, RuntimeApiMessage, RuntimeApiRequest, ToJob,
};
use candidate_backing::primitives::{H256, HeadData, SigningContext, Validator, ValidatorId};
use candidate_backing::startup::{
    collect_groups, find_assignment, startup_requests, CoreAssignment, JobSetup, SchedulerRoster,
};
use candidate_backing::subsystem::{
    FromOverseer, LoopAction, LoopEvent, OverseerSignal, RunLoop,
};

fn block(b: u8) -> H256 {
    H256([b; 32])
}

fn start(parent: H256) -> LoopEvent {
    LoopEvent::Incoming(Some(FromOverseer::Signal(OverseerSignal::StartWork(parent))))
}

fn stop(parent: H256) -> LoopEvent {
    LoopEvent::Incoming(Some(FromOverseer::Signal(OverseerSignal::StopWork(parent))))
}

fn handle(su_handle: usize) -> JobHandle {
    JobHandle { su_handle }
}

#[test]
fn digests_are_kept_once() {
    let mut set = DigestSet::new();
    assert!(!set.contains(&block(1)));
    set.insert(block(1));
    set.insert(block(1));
    assert!(set.contains(&block(1)));
    assert!(!set.contains(&block(2)));

    let mut last_differs = [1; 32];
    last_differs[31] = 2;
    assert!(!set.contains(&H256(last_differs)));

    let mut map: DigestMap<u8> = DigestMap::new();
    assert_eq!(map.insert(block(1), 10), None);
    assert_eq!(map.insert(block(2), 20), None);
    assert_eq!(map.insert(block(1), 11), Some(10));
    assert_eq!(map.get(&block(1)), Some(11));
    assert_eq!(map.remove(&block(1)), Some(11));
    assert_eq!(map.remove(&block(1)), None);
    assert_eq!(map.get(&block(2)), Some(20));
}

#[test]
fn jobs_are_found_by_their_block() {
    let mut jobs = Jobs::new();
    assert_eq!(jobs.send_msg(block(1)), None);
    assert_eq!(jobs.spawn_job(block(1), Ok(3)), Ok(None));
    assert_eq!(jobs.spawn_job(block(1), Err(Error::Spawn)), Err(Error::Spawn));
    assert_eq!(jobs.send_msg(block(1)), Some(handle(3)));
    assert_eq!(jobs.spawn_job(block(1), Ok(4)), Ok(Some(handle(3))));
    assert_eq!(jobs.stop_job(block(1)), Ok(handle(4)));
    assert_eq!(jobs.stop_job(block(1)), Err(Error::JobNotFound(block(1))));
    assert_eq!(CHANNEL_CAPACITY, 64);
}

#[test]
fn only_items_are_messages() {
    let message =
        || FromJob::RuntimeApiMessage(RuntimeApiMessage::Request(block(1), RuntimeApiRequest::Validators));
    assert_eq!(Jobs::next(Some(StreamYield::Item(message()))), Some(message()));
    assert_eq!(Jobs::next(Some(StreamYield::Finished)), None);
    assert_eq!(Jobs::next(None), None);
}

#[test]
fn a_job_is_started_and_stopped() {
    let mut run_loop = RunLoop::new();
    assert_eq!(run_loop.resume(start(block(1))), LoopAction::Spawn { parent: block(1) });
    assert!(!run_loop.accepts(&LoopEvent::Released));
    assert_eq!(run_loop.resume(LoopEvent::Spawned(Ok(5))), LoopAction::Select);
    assert_eq!(run_loop.resume(stop(block(1))), LoopAction::SendStop { handle: handle(5) });
    assert_eq!(
        run_loop.resume(LoopEvent::StopSent),
        LoopAction::AwaitFinish { handle: handle(5), timeout_secs: 1 }
    );
    // A job that has finished is aborted, and one that has not is left alone.
    assert_eq!(run_loop.resume(LoopEvent::Finished), LoopAction::Abort { handle: handle(5) });
    assert_eq!(run_loop.resume(LoopEvent::Aborted), LoopAction::Select);
    assert_eq!(
        run_loop.resume(stop(block(1))),
        LoopAction::Break(Some(Error::JobNotFound(block(1))))
    );
}

#[test]
fn a_job_that_does_not_finish_is_left_alone() {
    let mut run_loop = RunLoop::new();
    run_loop.resume(start(block(1)));
    run_loop.resume(LoopEvent::Spawned(Ok(5)));
    run_loop.resume(stop(block(1)));
    run_loop.resume(LoopEvent::StopSent);
    assert_eq!(run_loop.resume(LoopEvent::TimedOut), LoopAction::Select);
}

#[test]
fn a_replaced_job_is_let_go_of() {
    let mut run_loop = RunLoop::new();
    run_loop.resume(start(block(1)));
    run_loop.resume(LoopEvent::Spawned(Ok(5)));
    run_loop.resume(start(block(1)));
    assert_eq!(
        run_loop.resume(LoopEvent::Spawned(Ok(6))),
        LoopAction::Release { handle: handle(5) }
    );
    assert_eq!(run_loop.resume(LoopEvent::Released), LoopAction::Select);
    assert_eq!(run_loop.resume(stop(block(1))), LoopAction::SendStop { handle: handle(6) });
}

#[test]
fn messages_go_to_the_job_of_their_block() {
    let mut run_loop = RunLoop::new();
    for (b, su_handle) in [(1, 5), (2, 6)] {
        run_loop.resume(start(block(b)));
        run_loop.resume(LoopEvent::Spawned(Ok(su_handle)));
    }
    let watch = |b| CandidateBackingMessage::RegisterBackingWatcher(block(b), 8);
    let incoming = |b| LoopEvent::Incoming(Some(FromOverseer::Communication { msg: watch(b) }));
    assert_eq!(
        run_loop.resume(incoming(2)),
        LoopAction::Deliver { handle: handle(6), msg: ToJob::CandidateBacking(watch(2)) }
    );
    assert_eq!(run_loop.resume(LoopEvent::Delivered(Ok(()))), LoopAction::Select);
    assert_eq!(run_loop.resume(incoming(3)), LoopAction::Select);
    run_loop.resume(incoming(1));
    assert_eq!(
        run_loop.resume(LoopEvent::Delivered(Err(Error::Mpsc))),
        LoopAction::Break(Some(Error::Mpsc))
    );
    assert!(!run_loop.accepts(&LoopEvent::Complete));
}

#[test]
fn the_loop_ends_when_it_has_to() {
    assert_eq!(RunLoop::new().resume(LoopEvent::Incoming(None)), LoopAction::Break(None));
    assert_eq!(RunLoop::new().resume(LoopEvent::Outgoing(None)), LoopAction::Break(None));
    assert_eq!(
        RunLoop::new().resume(LoopEvent::Outgoing(Some(StreamYield::Finished))),
        LoopAction::Break(None)
    );
    assert_eq!(RunLoop::new().resume(LoopEvent::Complete), LoopAction::Break(None));
    let mut run_loop = RunLoop::new();
    run_loop.resume(start(block(1)));
    assert_eq!(
        run_loop.resume(LoopEvent::Spawned(Err(Error::Spawn))),
        LoopAction::Break(Some(Error::Spawn))
    );
    let conclude = LoopEvent::Incoming(Some(FromOverseer::Signal(OverseerSignal::Conclude)));
    assert_eq!(RunLoop::new().resume(conclude), LoopAction::Select);
}

#[test]
fn messages_of_jobs_are_forwarded() {
    let mut run_loop = RunLoop::new();
    let request = || RuntimeApiMessage::Request(block(1), RuntimeApiRequest::HeadData(3));
    let item = StreamYield::Item(FromJob::RuntimeApiMessage(request()));
    assert_eq!(
        run_loop.resume(LoopEvent::Outgoing(Some(item))),
        LoopAction::Forward(AllMessages::RuntimeApi(request()))
    );
    assert_eq!(run_loop.resume(LoopEvent::Forwarded), LoopAction::Select);
}

fn key(b: u8) -> ValidatorId {
    ValidatorId([b; 32])
}

fn roster() -> SchedulerRoster {
    SchedulerRoster {
        validator_groups: vec![vec![2, 0, 3], vec![1], vec![4]],
        scheduled: vec![
            CoreAssignment { para_id: 1, group_idx: 0 },
            CoreAssignment { para_id: 2, group_idx: 2 },
            CoreAssignment { para_id: 2, group_idx: 1 },
            CoreAssignment { para_id: 3, group_idx: 3 },
        ],
    }
}

#[test]
fn groups_go_by_the_last_assignment() {
    let groups = collect_groups(&roster());
    assert_eq!(groups.len(), 2);
    assert_eq!(groups[&1], vec![2, 0, 3]);
    assert_eq!(groups[&2], vec![1]);
}

#[test]
fn the_assignment_is_that_of_the_group() {
    let groups = collect_groups(&roster());
    let validators: Vec<ValidatorId> = (10..15).map(key).collect();
    assert_eq!(find_assignment(&validators, &key(13), &groups), 1);
    assert_eq!(find_assignment(&validators, &key(11), &groups), 2);
    // No scheduled group has this one.
    assert_eq!(find_assignment(&validators, &key(14), &groups), 0);
    // This one is no validator.
    assert_eq!(find_assignment(&validators, &key(15), &groups), 0);
    // The first place in the set counts.
    let twice = vec![key(9), key(10), key(10)];
    assert_eq!(find_assignment(&twice, &key(10), &groups), 2);
}

#[test]
fn a_job_is_set_up_from_what_the_runtime_says() {
    let request =
        |r| FromJob::RuntimeApiMessage(RuntimeApiMessage::Request(block(5), r));
    assert_eq!(
        startup_requests(block(5)),
        vec![
            request(RuntimeApiRequest::Validators),
            request(RuntimeApiRequest::ValidatorGroups),
            request(RuntimeApiRequest::SigningContext),
        ]
    );
    let signing_context = SigningContext { session_index: 1, parent_hash: block(1) };
    let prepared = || {
        let validator = Validator { id: key(11), index: 1, signing_context };
        Ok(((10..15).map(key).collect(), roster(), validator))
    };
    let setup = JobSetup::prepare(block(5), prepared()).unwrap();
    assert_eq!(setup.assignment, 2);
    assert_eq!(setup.table_context.signing_context, signing_context);
    assert_eq!(setup.head_data_request(), request(RuntimeApiRequest::HeadData(2)));
    let job = setup.begin(Ok(HeadData(vec![4, 5, 6]))).unwrap();
    assert_eq!(job.seconded(), None);
    assert_eq!(job.table_context().validators.len(), 5);

    let setup = JobSetup::prepare(block(5), prepared()).unwrap();
    assert_eq!(setup.begin(Err(Error::Oneshot)).err(), Some(Error::Oneshot));
    let failed = JobSetup::prepare(block(5), Err(Error::UtilError("no validator".to_string())));
    assert_eq!(failed.err(), Some(Error::UtilError("no validator".to_string())));
}
