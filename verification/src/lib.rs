//! Low-level thread-synchronization primitives built on a futex-style
//! wait/wake facility: a mutual-exclusion lock, a condition variable usable
//! with that lock, and a shared/exclusive (reader/writer) lock.
//!
//! Each primitive packs its entire protocol into one or two 32-bit words.
//! This crate verifies those protocols: every word transition an operation
//! may perform is an executable function with an exact contract, and the
//! safety laws of the protocols (mutual exclusion, reader/writer exclusion,
//! no lost wakeups) are proved over runs of the resulting state machines.
//!
//! Blocking itself — parking a thread on a word and waking it — is the one
//! thing a verifier cannot run: a driver that owns real atomic words performs
//! each transition here, then parks or wakes as the returned decision says.

pub mod generation;
pub mod kondvar;
pub mod myoutex;
pub mod se_lock;
