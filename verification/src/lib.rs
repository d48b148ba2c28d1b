//! The decisions of a validator node's candidate backing subsystem.
//!
//! A backing job runs on top of one relay chain block. It seconds a parachain candidate, checks
//! the candidates that other validators of its group have seconded, gathers the statements of the
//! group and hands out the candidates that have found enough support.
//!
//! Channels, timers, signatures, erasure coding and the statement table live in the host. The
//! library decides: given the state of a job and what came back from the last piece of outside
//! work, it says what the state becomes and which piece of outside work is to be done next.
pub mod availability;
pub mod backed;
pub mod bits;
pub mod digests;
pub mod error;
pub mod job;
pub mod job_laws;
pub mod jobs;
pub mod laws;
pub mod messages;
pub mod misbehavior;
pub mod primitives;
pub mod protocol;
pub mod run_laws;
pub mod startup;
pub mod subsystem;
pub mod subsystem_laws;
pub mod table;
