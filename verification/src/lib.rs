//! A verified CI job-execution core.
//!
//! The crate models the heart of a continuous-integration runner: a bounded
//! worker pool admits jobs, each job is driven through a one-way state
//! machine (provision a workspace, run the script's steps in order, finalize,
//! release the workspace, report), and a step runner executes the script one
//! command at a time, stopping at the first failure.
//!
//! All decisions live here as verified functions over plain values.  The
//! surrounding process — fetching jobs from a dispatch service, spawning
//! child processes, creating and removing directories — is performed by an
//! unverified driver that feeds events into these state machines and carries
//! out the actions they hand back.

pub mod executor;
pub mod job;
pub mod outcome;
pub mod pool;
pub mod steps;
pub mod workspace;
