//! What holds of the subsystem, whatever happens to it.
use vstd::prelude::*;
use vstd::std_specs::convert::TryFromSpec;

use crate::error::Error;
use crate::jobs::{lookup, yielded, JobHandle, StreamYield, CHANNEL_CAPACITY};
use crate::messages::{AllMessages, CandidateBackingMessage, FromJob, ToJob};
use crate::primitives::H256;
use crate::subsystem::{
    can_happen, on_event, FromOverseer, LoopAction, LoopEvent, LoopPhase, LoopState, LoopStep,
    OverseerSignal,
};

verus! {

/// A message goes to the job of its block as it is. A message about a block without a job goes
/// nowhere, and does no harm.
pub proof fn law_messages_go_to_the_job_of_their_block(s: LoopState, msg: CandidateBackingMessage)
    requires
        s.phase is Selecting,
    ensures
        ({
            let next = on_event(
                s,
                LoopEvent::Incoming(Some(FromOverseer::Communication { msg })),
            );
            &&& next.state.running == s.running
            &&& match lookup(s.running, msg.spec_relay_parent()) {
                Some(handle) => next.action == (LoopAction::Deliver {
                    handle,
                    msg: ToJob::CandidateBacking(msg),
                }),
                None => next == (LoopStep { state: s, action: LoopAction::Select }),
            }
        }),
{
}

/// A job that was started on a block is the one that is stopped when the work on the block is given
/// up, and no trace of it is left.
pub proof fn law_what_was_started_is_stopped(s: LoopState, parent: H256, su_handle: usize)
    requires
        s.phase is Selecting,
    ensures
        ({
            let spawning = on_event(
                s,
                LoopEvent::Incoming(
                    Some(FromOverseer::Signal(OverseerSignal::StartWork(parent))),
                ),
            );
            let spawned = on_event(spawning.state, LoopEvent::Spawned(Ok(su_handle)));
            let started = match spawned.action {
                LoopAction::Release { .. } => on_event(spawned.state, LoopEvent::Released),
                _ => spawned,
            };
            let stopping = on_event(
                started.state,
                LoopEvent::Incoming(Some(FromOverseer::Signal(OverseerSignal::StopWork(parent)))),
            );
            &&& spawning.action == (LoopAction::Spawn { parent })
            &&& spawned.action is Release <==> s.running.contains_key(parent)
            &&& started.state.phase is Selecting
            &&& started.state.running == s.running.insert(parent, JobHandle { su_handle })
            &&& stopping.action == (LoopAction::SendStop { handle: JobHandle { su_handle } })
            &&& stopping.state.running == s.running.remove(parent)
        }),
{
    assert(s.running.insert(parent, JobHandle { su_handle }).remove(parent) =~= s.running.remove(
        parent,
    ));
}

/// The event that is about the job on a block.
pub open spec fn concerns(s: LoopState, event: LoopEvent, parent: H256) -> bool {
    ||| event == LoopEvent::Incoming(
        Some(FromOverseer::Signal(OverseerSignal::StopWork(parent))),
    )
    ||| s.phase == (LoopPhase::Spawning { parent }) && event is Spawned
}

/// The jobs on other blocks go on as they are.
pub proof fn law_other_jobs_go_on(s: LoopState, event: LoopEvent, parent: H256)
    requires
        can_happen(s.phase, event),
        !concerns(s, event, parent),
    ensures
        lookup(on_event(s, event).state.running, parent) == lookup(s.running, parent),
{
}

/// The subsystem is over only when the overseer is gone, when the jobs yield anything but a
/// message, when nothing can happen any more, when a job that is to be stopped is not there, or
/// when a job cannot be spawned or reached; and then it is.
pub proof fn law_ends_only_for_a_reason(s: LoopState, event: LoopEvent)
    requires
        can_happen(s.phase, event),
    ensures
        on_event(s, event).action is Break <==> match event {
            LoopEvent::Incoming(None) => true,
            LoopEvent::Incoming(
                Some(FromOverseer::Signal(OverseerSignal::StopWork(parent))),
            ) => !s.running.contains_key(parent),
            LoopEvent::Outgoing(polled) => yielded(polled) is None,
            LoopEvent::Complete => true,
            LoopEvent::Spawned(Err(_)) => true,
            LoopEvent::Delivered(Err(_)) => true,
            _ => false,
        },
        on_event(s, event).action is Break <==> on_event(s, event).state.phase is Over,
{
}

/// A job that is to be stopped and is not there ends the subsystem with an error that names the
/// block.
pub proof fn law_stopping_what_does_not_run_is_an_error(s: LoopState, parent: H256)
    requires
        s.phase is Selecting,
        !s.running.contains_key(parent),
    ensures
        on_event(
            s,
            LoopEvent::Incoming(Some(FromOverseer::Signal(OverseerSignal::StopWork(parent)))),
        ).action == LoopAction::Break(Some(Error::JobNotFound(parent))),
{
}

/// What a job sends reaches the rest of the node as it is.
pub proof fn law_messages_of_jobs_are_forwarded(s: LoopState, message: FromJob)
    requires
        s.phase is Selecting,
    ensures
        on_event(
            s,
            LoopEvent::Outgoing(Some(StreamYield::Item(message))),
        ).action matches LoopAction::Forward(forwarded) && FromJob::try_from_spec(forwarded) == Ok::<
            FromJob,
            &'static str,
        >(message),
{
}

/// An upper bound on the events that it takes to be done with what has happened last.
pub open spec fn events_left(phase: LoopPhase) -> nat {
    match phase {
        LoopPhase::Selecting => 0,
        LoopPhase::Spawning { .. } => 2,
        LoopPhase::Releasing => 1,
        LoopPhase::SendingStop { .. } => 3,
        LoopPhase::AwaitingFinish { .. } => 2,
        LoopPhase::Aborting => 1,
        LoopPhase::Delivering => 1,
        LoopPhase::Forwarding => 1,
        LoopPhase::Over => 0,
    }
}

/// The subsystem comes back to its overseer and its jobs: from wherever it is, each event takes it
/// nearer, and from there it is never more than three events away.
pub proof fn law_always_comes_back(s: LoopState, event: LoopEvent)
    requires
        can_happen(s.phase, event),
    ensures
        s.phase is Selecting ==> events_left(on_event(s, event).state.phase) <= 3,
        !(s.phase is Selecting) ==> events_left(on_event(s, event).state.phase) < events_left(
            s.phase,
        ),
{
}

/// What is looked up for a block is the job that runs on it, and nothing where none does.
pub proof fn law_lookup_finds_the_job(running: Map<H256, JobHandle>, parent: H256)
    ensures
        match lookup(running, parent) {
            Some(handle) => running.contains_key(parent) && running[parent] == handle,
            None => !running.contains_key(parent),
        },
{
}

/// Of what the streams of the jobs yield, the messages are taken as they are, and nothing else is
/// taken for a message.
pub proof fn law_messages_are_taken_from_the_streams(message: FromJob)
    ensures
        yielded(Some(StreamYield::Item(message))) == Some(message),
        yielded(Some(StreamYield::Finished)) is None,
        yielded(None) is None,
{
}

/// Work that is to start on a block has a job spawned there. The job is known under the block from
/// then on, in place of any other that ran there and is let go of, and the subsystem goes on. Where
/// it cannot be spawned, that ends the subsystem.
pub proof fn law_starting_work(s: LoopState, parent: H256, spawned: Result<usize, Error>)
    requires
        s.phase is Selecting,
    ensures
        ({
            let start = on_event(
                s,
                LoopEvent::Incoming(
                    Some(FromOverseer::Signal(OverseerSignal::StartWork(parent))),
                ),
            );
            let next = on_event(start.state, LoopEvent::Spawned(spawned));
            &&& start.action == (LoopAction::Spawn { parent })
            &&& start.state.running == s.running
            &&& match spawned {
                Ok(su_handle) => {
                    &&& next.state.running == s.running.insert(parent, JobHandle { su_handle })
                    &&& if s.running.contains_key(parent) {
                        let released = on_event(next.state, LoopEvent::Released);
                        &&& next.action == (LoopAction::Release { handle: s.running[parent] })
                        &&& released.action == LoopAction::Select
                        &&& released.state.phase is Selecting
                        &&& released.state.running == next.state.running
                    } else {
                        &&& next.action == LoopAction::Select
                        &&& next.state.phase is Selecting
                    }
                },
                Err(e) => {
                    &&& next.action == LoopAction::Break(Some(e))
                    &&& next.state.running == s.running
                },
            }
        }),
{
}

/// Work that is to stop on a block has the job on the block told to stop, and given one second to
/// finish. The job is forgotten at once, it is aborted when it has finished, and whether it has
/// finished in time or not, the subsystem goes on.
pub proof fn law_stopping_work(s: LoopState, parent: H256)
    requires
        s.phase is Selecting,
        s.running.contains_key(parent),
    ensures
        ({
            let handle = s.running[parent];
            let stop = on_event(
                s,
                LoopEvent::Incoming(Some(FromOverseer::Signal(OverseerSignal::StopWork(parent)))),
            );
            let waiting = on_event(stop.state, LoopEvent::StopSent);
            let late = on_event(waiting.state, LoopEvent::TimedOut);
            let finished = on_event(waiting.state, LoopEvent::Finished);
            let aborted = on_event(finished.state, LoopEvent::Aborted);
            let running = s.running.remove(parent);
            &&& stop.action == (LoopAction::SendStop { handle })
            &&& waiting.action == (LoopAction::AwaitFinish { handle, timeout_secs: 1 })
            &&& late == (LoopStep {
                state: LoopState { running, phase: LoopPhase::Selecting },
                action: LoopAction::Select,
            })
            &&& finished.action == (LoopAction::Abort { handle })
            &&& aborted == late
            &&& stop.state.running == running
            &&& waiting.state.running == running
            &&& finished.state.running == running
        }),
{
}

/// A message about a block is sent to the job on that block as it is, and the subsystem goes on
/// when it was sent. Where it cannot be sent, that ends the subsystem, and where no job runs on the
/// block, nothing comes of it.
pub proof fn law_delivering_messages(
    s: LoopState,
    msg: CandidateBackingMessage,
    parent: H256,
    delivered: Result<(), Error>,
)
    requires
        s.phase is Selecting,
        match msg {
            CandidateBackingMessage::Second(hash, _, _) => hash == parent,
            CandidateBackingMessage::Statement(hash, _) => hash == parent,
            CandidateBackingMessage::RegisterBackingWatcher(hash, _) => hash == parent,
        },
    ensures
        ({
            let next = on_event(s, LoopEvent::Incoming(Some(FromOverseer::Communication { msg })));
            let sent = on_event(next.state, LoopEvent::Delivered(delivered));
            if s.running.contains_key(parent) {
                &&& next.action == (LoopAction::Deliver {
                    handle: s.running[parent],
                    msg: ToJob::CandidateBacking(msg),
                })
                &&& next.state.running == s.running
                &&& match delivered {
                    Ok(_) => sent.action == LoopAction::Select && sent.state == s,
                    Err(e) => sent.action == LoopAction::Break(Some(e)),
                }
            } else {
                next.action == LoopAction::Select && next.state == s
            }
        }),
{
}

/// A message of a job is sent to the part of the node that it is for, and the subsystem goes on.
pub proof fn law_forwarding_messages(s: LoopState, message: FromJob)
    requires
        s.phase is Selecting,
    ensures
        ({
            let next = on_event(s, LoopEvent::Outgoing(Some(StreamYield::Item(message))));
            let sent = on_event(next.state, LoopEvent::Forwarded);
            &&& next.action == LoopAction::Forward(
                match message {
                    FromJob::AvailabilityStore(msg) => AllMessages::AvailabilityStore(msg),
                    FromJob::RuntimeApiMessage(msg) => AllMessages::RuntimeApi(msg),
                    FromJob::CandidateValidation(msg) => AllMessages::CandidateValidation(msg),
                    FromJob::CandidateSelection(msg) => AllMessages::CandidateSelection(msg),
                    FromJob::Provisioner(msg) => AllMessages::Provisioner(msg),
                    FromJob::PoVDistribution(msg) => AllMessages::PoVDistribution(msg),
                    FromJob::StatementDistribution(msg) => AllMessages::StatementDistribution(msg),
                },
            )
            &&& next.state.running == s.running
            &&& sent.action == LoopAction::Select
            &&& sent.state == s
        }),
{
}

/// The subsystem is over, for no error, when the overseer is gone, when the jobs yield no message,
/// or when nothing can happen any more. A signal that is none of its business changes nothing.
pub proof fn law_ending(s: LoopState)
    requires
        s.phase is Selecting,
    ensures
        on_event(s, LoopEvent::Incoming(None)).action == LoopAction::Break(None),
        on_event(s, LoopEvent::Outgoing(None)).action == LoopAction::Break(None),
        on_event(s, LoopEvent::Outgoing(Some(StreamYield::Finished))).action == LoopAction::Break(
            None,
        ),
        on_event(s, LoopEvent::Complete).action == LoopAction::Break(None),
        on_event(
            s,
            LoopEvent::Incoming(Some(FromOverseer::Signal(OverseerSignal::Conclude))),
        ) == (LoopStep { state: s, action: LoopAction::Select }),
{
}

/// The loop takes whatever can come of what it has asked for, and nothing else.
pub proof fn law_loop_takes_what_it_has_asked_for(s: LoopState, event: LoopEvent, then: LoopEvent)
    requires
        can_happen(s.phase, event),
    ensures
        can_happen(on_event(s, event).state.phase, then) <==> match on_event(s, event).action {
            LoopAction::Select => then is Incoming || then is Outgoing || then is Complete,
            LoopAction::Spawn { .. } => then is Spawned,
            LoopAction::Release { .. } => then is Released,
            LoopAction::SendStop { .. } => then is StopSent,
            LoopAction::AwaitFinish { .. } => then is Finished || then is TimedOut,
            LoopAction::Abort { .. } => then is Aborted,
            LoopAction::Deliver { .. } => then is Delivered,
            LoopAction::Forward(_) => then is Forwarded,
            LoopAction::Break(_) => false,
        },
        can_happen(LoopPhase::Selecting, then) <==> then is Incoming || then is Outgoing
            || then is Complete,
{
}

/// A channel to or from a job holds as many messages as it is meant to.
pub proof fn law_channel_capacity()
    ensures
        CHANNEL_CAPACITY == 64,
{
}

} // verus!
