//! The candidate backing subsystem: it starts and stops jobs, and carries messages to and from them.
use vstd::prelude::*;
use vstd::std_specs::convert::FromSpec;

use crate::error::Error;
use crate::jobs::{lookup, yielded, JobHandle, Jobs, StreamYield, STOP_TIMEOUT_SECS};
use crate::messages::{AllMessages, CandidateBackingMessage, ToJob};
use crate::primitives::H256;

verus! {

/// What the overseer tells every subsystem.
#[derive(Debug, PartialEq, Eq)]
pub enum OverseerSignal {
    /// Work on top of a block.
    StartWork(H256),
    /// Give up the work on top of a block.
    StopWork(H256),
    /// Any other signal. It means nothing to this subsystem.
    Conclude,
}

/// What comes from the overseer.
#[derive(Debug, PartialEq, Eq)]
pub enum FromOverseer {
    Signal(OverseerSignal),
    Communication { msg: CandidateBackingMessage },
}

/// What happens to the subsystem.
#[derive(Debug, PartialEq, Eq)]
pub enum LoopEvent {
    /// The overseer has sent something; `None` when it cannot send any more.
    Incoming(Option<FromOverseer>),
    /// The jobs' streams of messages have yielded something; `None` when there are none.
    Outgoing(Option<StreamYield>),
    /// Nothing can happen any more.
    Complete,
    /// The job was spawned, with the place of its messages among the streams, or was not.
    Spawned(Result<usize, Error>),
    /// The job was let go of.
    Released,
    /// The job was told to stop, so far as it listens.
    StopSent,
    /// The job has finished.
    Finished,
    /// The job has not finished in time.
    TimedOut,
    /// The job was aborted.
    Aborted,
    /// The message was sent to the job, or could not be.
    Delivered(Result<(), Error>),
    /// The message was sent to the overseer, so far as it listens.
    Forwarded,
}

/// What the host is to do for the subsystem.
#[derive(Debug, PartialEq, Eq)]
pub enum LoopAction {
    /// Wait for the overseer or the jobs, whichever comes first.
    Select,
    /// Spawn a job on top of the block, and listen to its messages.
    Spawn { parent: H256 },
    /// Let go of the job that another one has replaced. What it still sends is listened to.
    Release { handle: JobHandle },
    /// Listen to the job's messages no more, and tell it to stop.
    SendStop { handle: JobHandle },
    /// Wait for the job to finish, for so long.
    AwaitFinish { handle: JobHandle, timeout_secs: u64 },
    /// Abort the job.
    Abort { handle: JobHandle },
    /// Send the message to the job.
    Deliver { handle: JobHandle, msg: ToJob },
    /// Send the message to the overseer.
    Forward(AllMessages),
    /// The subsystem is over, for this reason if there is one.
    Break(Option<Error>),
}

/// How far the subsystem has come with what has happened last.
#[derive(Debug, PartialEq, Eq)]
pub enum LoopPhase {
    Selecting,
    Spawning { parent: H256 },
    Releasing,
    SendingStop { handle: JobHandle },
    AwaitingFinish { handle: JobHandle },
    Aborting,
    Delivering,
    Forwarding,
    Over,
}

/// The state of the subsystem.
pub ghost struct LoopState {
    /// The running jobs.
    pub running: Map<H256, JobHandle>,
    /// How far it has come with what has happened last.
    pub phase: LoopPhase,
}

/// The state of the subsystem after a step, and what it asks of its host.
pub ghost struct LoopStep {
    pub state: LoopState,
    pub action: LoopAction,
}

impl LoopState {
    /// The same jobs at another point.
    pub open spec fn asks(self, phase: LoopPhase, action: LoopAction) -> LoopStep {
        LoopStep { state: LoopState { phase, ..self }, action }
    }

    /// What has happened last is done with.
    pub open spec fn done(self) -> LoopStep {
        self.asks(LoopPhase::Selecting, LoopAction::Select)
    }

    /// The subsystem is over.
    pub open spec fn over(self, reason: Option<Error>) -> LoopStep {
        self.asks(LoopPhase::Over, LoopAction::Break(reason))
    }
}

/// Whether the event can happen at the point.
pub open spec fn can_happen(phase: LoopPhase, event: LoopEvent) -> bool {
    match phase {
        LoopPhase::Selecting => event is Incoming || event is Outgoing || event is Complete,
        LoopPhase::Spawning { .. } => event is Spawned,
        LoopPhase::Releasing => event is Released,
        LoopPhase::SendingStop { .. } => event is StopSent,
        LoopPhase::AwaitingFinish { .. } => event is Finished || event is TimedOut,
        LoopPhase::Aborting => event is Aborted,
        LoopPhase::Delivering => event is Delivered,
        LoopPhase::Forwarding => event is Forwarded,
        LoopPhase::Over => false,
    }
}

/// What the subsystem makes of what the overseer has sent. A message goes to the job of its block.
pub open spec fn on_incoming(s: LoopState, incoming: FromOverseer) -> LoopStep {
    match incoming {
        FromOverseer::Signal(OverseerSignal::StartWork(parent)) => s.asks(
            LoopPhase::Spawning { parent },
            LoopAction::Spawn { parent },
        ),
        FromOverseer::Signal(OverseerSignal::StopWork(parent)) => {
            match lookup(s.running, parent) {
                Some(handle) => (LoopState { running: s.running.remove(parent), ..s }).asks(
                    LoopPhase::SendingStop { handle },
                    LoopAction::SendStop { handle },
                ),
                None => s.over(Some(Error::JobNotFound(parent))),
            }
        },
        FromOverseer::Signal(OverseerSignal::Conclude) => s.done(),
        FromOverseer::Communication { msg } => {
            match lookup(s.running, msg.spec_relay_parent()) {
                Some(handle) => s.asks(
                    LoopPhase::Delivering,
                    LoopAction::Deliver { handle, msg: ToJob::CandidateBacking(msg) },
                ),
                None => s.done(),
            }
        },
    }
}

/// What the subsystem makes of an event.
pub open spec fn on_event(s: LoopState, event: LoopEvent) -> LoopStep {
    match (s.phase, event) {
        (LoopPhase::Selecting, LoopEvent::Incoming(Some(incoming))) => on_incoming(s, incoming),
        (LoopPhase::Selecting, LoopEvent::Incoming(None)) => s.over(None),
        (LoopPhase::Selecting, LoopEvent::Outgoing(polled)) => match yielded(polled) {
            Some(message) => s.asks(
                LoopPhase::Forwarding,
                LoopAction::Forward(AllMessages::from_spec(message)),
            ),
            None => s.over(None),
        },
        (LoopPhase::Selecting, LoopEvent::Complete) => s.over(None),
        (LoopPhase::Spawning { parent }, LoopEvent::Spawned(Ok(su_handle))) => {
            let spawned = LoopState {
                running: s.running.insert(parent, JobHandle { su_handle }),
                ..s
            };
            match lookup(s.running, parent) {
                Some(handle) => spawned.asks(
                    LoopPhase::Releasing,
                    LoopAction::Release { handle },
                ),
                None => spawned.done(),
            }
        },
        (LoopPhase::Spawning { .. }, LoopEvent::Spawned(Err(e))) => s.over(Some(e)),
        (LoopPhase::SendingStop { handle }, LoopEvent::StopSent) => s.asks(
            LoopPhase::AwaitingFinish { handle },
            LoopAction::AwaitFinish { handle, timeout_secs: STOP_TIMEOUT_SECS },
        ),
        (LoopPhase::AwaitingFinish { handle }, LoopEvent::Finished) => s.asks(
            LoopPhase::Aborting,
            LoopAction::Abort { handle },
        ),
        (LoopPhase::Delivering, LoopEvent::Delivered(Err(e))) => s.over(Some(e)),
        _ => s.done(),
    }
}

/// The loop of the subsystem.
#[derive(Debug)]
pub struct RunLoop {
    jobs: Jobs,
    phase: LoopPhase,
}

impl View for RunLoop {
    type V = LoopState;

    closed spec fn view(&self) -> LoopState {
        LoopState { running: self.jobs@, phase: self.phase }
    }
}

impl RunLoop {
    /// No block has two jobs.
    pub closed spec fn wf(self) -> bool {
        self.jobs.wf()
    }

    /// A loop without jobs.
    pub fn new() -> (run_loop: Self)
        ensures
            run_loop.wf(),
            run_loop@ == (LoopState {
                running: Map::<H256, JobHandle>::empty(),
                phase: LoopPhase::Selecting,
            }),
    {
        RunLoop { jobs: Jobs::new(), phase: LoopPhase::Selecting }
    }

    /// Whether the event can happen now.
    pub fn accepts(&self, event: &LoopEvent) -> (ok: bool)
        ensures
            ok == can_happen(self@.phase, *event),
    {
        match (&self.phase, event) {
            (LoopPhase::Selecting, LoopEvent::Incoming(_)) => true,
            (LoopPhase::Selecting, LoopEvent::Outgoing(_)) => true,
            (LoopPhase::Selecting, LoopEvent::Complete) => true,
            (LoopPhase::Spawning { .. }, LoopEvent::Spawned(_)) => true,
            (LoopPhase::Releasing, LoopEvent::Released) => true,
            (LoopPhase::SendingStop { .. }, LoopEvent::StopSent) => true,
            (LoopPhase::AwaitingFinish { .. }, LoopEvent::Finished) => true,
            (LoopPhase::AwaitingFinish { .. }, LoopEvent::TimedOut) => true,
            (LoopPhase::Aborting, LoopEvent::Aborted) => true,
            (LoopPhase::Delivering, LoopEvent::Delivered(_)) => true,
            (LoopPhase::Forwarding, LoopEvent::Forwarded) => true,
            _ => false,
        }
    }

    fn ask(&mut self, phase: LoopPhase, action: LoopAction) -> (next: LoopAction)
        requires
            old(self).wf(),
        ensures
            final(self).wf(),
            (LoopStep { state: final(self)@, action: next }) == old(self)@.asks(phase, action),
    {
        self.phase = phase;
        action
    }

    fn done(&mut self) -> (next: LoopAction)
        requires
            old(self).wf(),
        ensures
            final(self).wf(),
            (LoopStep { state: final(self)@, action: next }) == old(self)@.done(),
    {
        self.ask(LoopPhase::Selecting, LoopAction::Select)
    }

    fn over(&mut self, reason: Option<Error>) -> (next: LoopAction)
        requires
            old(self).wf(),
        ensures
            final(self).wf(),
            (LoopStep { state: final(self)@, action: next }) == old(self)@.over(reason),
    {
        self.ask(LoopPhase::Over, LoopAction::Break(reason))
    }

    /// Takes what the overseer has sent.
    fn incoming(&mut self, incoming: FromOverseer) -> (next: LoopAction)
        requires
            old(self).wf(),
        ensures
            final(self).wf(),
            (LoopStep { state: final(self)@, action: next }) == on_incoming(old(self)@, incoming),
    {
        match incoming {
            FromOverseer::Signal(OverseerSignal::StartWork(parent)) => self.ask(
                LoopPhase::Spawning { parent },
                LoopAction::Spawn { parent },
            ),
            FromOverseer::Signal(OverseerSignal::StopWork(parent)) => {
                let ghost before = self.jobs@;
                match self.jobs.stop_job(parent) {
                    Ok(handle) => self.ask(
                        LoopPhase::SendingStop { handle },
                        LoopAction::SendStop { handle },
                    ),
                    Err(e) => {
                        assert(before.remove(parent) =~= before);
                        self.over(Some(e))
                    },
                }
            },
            FromOverseer::Signal(OverseerSignal::Conclude) => self.done(),
            FromOverseer::Communication { msg } => {
                match self.jobs.send_msg(msg.relay_parent()) {
                    Some(handle) => self.ask(
                        LoopPhase::Delivering,
                        LoopAction::Deliver { handle, msg: ToJob::CandidateBacking(msg) },
                    ),
                    None => self.done(),
                }
            },
        }
    }

    /// Takes what has happened, and says what is to be done next.
    pub fn resume(&mut self, event: LoopEvent) -> (next: LoopAction)
        requires
            old(self).wf(),
            can_happen(old(self)@.phase, event),
        ensures
            final(self).wf(),
            (LoopStep { state: final(self)@, action: next }) == on_event(old(self)@, event),
    {
        let mut phase = LoopPhase::Over;
        std::mem::swap(&mut phase, &mut self.phase);
        match (phase, event) {
            (LoopPhase::Selecting, LoopEvent::Incoming(Some(incoming))) => self.incoming(incoming),
            (LoopPhase::Selecting, LoopEvent::Incoming(None)) => self.over(None),
            (LoopPhase::Selecting, LoopEvent::Outgoing(polled)) => {
                match Jobs::next(polled) {
                    Some(msg) => self.ask(
                        LoopPhase::Forwarding,
                        LoopAction::Forward(AllMessages::from(msg)),
                    ),
                    None => self.over(None),
                }
            },
            (LoopPhase::Selecting, LoopEvent::Complete) => self.over(None),
            (LoopPhase::Spawning { parent }, LoopEvent::Spawned(spawned)) => {
                match self.jobs.spawn_job(parent, spawned) {
                    Ok(Some(handle)) => self.ask(
                        LoopPhase::Releasing,
                        LoopAction::Release { handle },
                    ),
                    Ok(None) => self.done(),
                    Err(e) => self.over(Some(e)),
                }
            },
            (LoopPhase::SendingStop { handle }, LoopEvent::StopSent) => self.ask(
                LoopPhase::AwaitingFinish { handle },
                LoopAction::AwaitFinish { handle, timeout_secs: STOP_TIMEOUT_SECS },
            ),
            (LoopPhase::AwaitingFinish { handle }, LoopEvent::Finished) => self.ask(
                LoopPhase::Aborting,
                LoopAction::Abort { handle },
            ),
            (LoopPhase::Delivering, LoopEvent::Delivered(Err(e))) => self.over(Some(e)),
            _ => self.done(),
        }
    }
}

/// The candidate backing subsystem, with what its jobs are spawned with and what they sign with.
#[derive(Debug)]
pub struct CandidateBackingSubsystem<S, K> {
    spawner: S,
    keystore: K,
}

impl<S, K> CandidateBackingSubsystem<S, K> {
    /// What jobs are spawned with.
    pub closed spec fn spec_spawner(self) -> S {
        self.spawner
    }

    /// What jobs sign with.
    pub closed spec fn spec_keystore(self) -> K {
        self.keystore
    }

    /// Creates a new `CandidateBackingSubsystem`.
    pub fn new(keystore: K, spawner: S) -> (subsystem: Self)
        ensures
            subsystem.spec_keystore() == keystore,
            subsystem.spec_spawner() == spawner,
    {
        CandidateBackingSubsystem { spawner, keystore }
    }

    /// Gives the keystore and the spawner back.
    pub fn into_parts(self) -> (parts: (K, S))
        ensures
            parts == (self.spec_keystore(), self.spec_spawner()),
    {
        (self.keystore, self.spawner)
    }
}

} // verus!
