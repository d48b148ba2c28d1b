//! The running jobs of the subsystem.
use vstd::prelude::*;

use crate::digests::DigestMap;
use crate::error::Error;
use crate::messages::FromJob;
use crate::primitives::H256;

verus! {

/// The number of messages that a channel to or from a job holds.
pub const CHANNEL_CAPACITY: usize = 64;

/// The seconds that a job is given to finish after it was told to stop.
pub const STOP_TIMEOUT_SECS: u64 = 1;

/// What names a running job to the host.
#[derive(Clone, Copy, Debug, PartialEq, Eq, Structural)]
pub struct JobHandle {
    /// The place of the job's messages among the streams of outgoing messages.
    pub su_handle: usize,
}

/// What the streams of outgoing messages yield.
#[derive(Debug, PartialEq, Eq)]
pub enum StreamYield {
    /// A message of a job.
    Item(FromJob),
    /// The stream of a job has ended.
    Finished,
}

/// The running jobs, one for each relay chain block at the most.
#[derive(Debug)]
pub struct Jobs {
    running: DigestMap<JobHandle>,
}

impl View for Jobs {
    type V = Map<H256, JobHandle>;

    closed spec fn view(&self) -> Map<H256, JobHandle> {
        self.running@
    }
}

/// What is held for a key, where something is.
pub open spec fn lookup(running: Map<H256, JobHandle>, parent: H256) -> Option<JobHandle> {
    if running.contains_key(parent) {
        Some(running[parent])
    } else {
        None
    }
}

/// The message of a job in what the streams have yielded.
pub open spec fn yielded(polled: Option<StreamYield>) -> Option<FromJob> {
    match polled {
        Some(StreamYield::Item(message)) => Some(message),
        _ => None,
    }
}

impl Jobs {
    /// No block has two jobs.
    pub closed spec fn wf(self) -> bool {
        self.running.wf()
    }

    /// No jobs.
    pub fn new() -> (jobs: Self)
        ensures
            jobs.wf(),
            jobs@ == Map::<H256, JobHandle>::empty(),
    {
        Jobs { running: DigestMap::new() }
    }

    /// Takes note of a job that was to be spawned on a block. Gives back the job that it replaces.
    pub fn spawn_job(&mut self, parent_hash: H256, spawned: Result<usize, Error>) -> (replaced:
        Result<Option<JobHandle>, Error>)
        requires
            old(self).wf(),
        ensures
            final(self).wf(),
            match spawned {
                Ok(su_handle) => {
                    &&& final(self)@ == old(self)@.insert(parent_hash, JobHandle { su_handle })
                    &&& replaced == Ok::<_, Error>(lookup(old(self)@, parent_hash))
                },
                Err(e) => {
                    &&& final(self)@ == old(self)@
                    &&& replaced == Err::<Option<JobHandle>, _>(e)
                },
            },
    {
        match spawned {
            Ok(su_handle) => Ok(self.running.insert(parent_hash, JobHandle { su_handle })),
            Err(e) => Err(e),
        }
    }

    /// Takes a job out, for it to be stopped.
    pub fn stop_job(&mut self, parent_hash: H256) -> (stopped: Result<JobHandle, Error>)
        requires
            old(self).wf(),
        ensures
            final(self).wf(),
            final(self)@ == old(self)@.remove(parent_hash),
            stopped == match lookup(old(self)@, parent_hash) {
                Some(handle) => Ok(handle),
                None => Err(Error::JobNotFound(parent_hash)),
            },
    {
        match self.running.remove(&parent_hash) {
            Some(handle) => Ok(handle),
            None => Err(Error::JobNotFound(parent_hash)),
        }
    }

    /// The job that a message about a block goes to. A message about a block without a job goes
    /// nowhere.
    pub fn send_msg(&self, parent_hash: H256) -> (job: Option<JobHandle>)
        requires
            self.wf(),
        ensures
            job == lookup(self@, parent_hash),
    {
        self.running.get(&parent_hash)
    }

    /// The next message of any job, from what the streams have yielded.
    pub fn next(polled: Option<StreamYield>) -> (message: Option<FromJob>)
        ensures
            message == yielded(polled),
    {
        match polled {
            Some(StreamYield::Item(e)) => Some(e),
            _ => None,
        }
    }
}

} // verus!
