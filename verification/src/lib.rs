//! Backend process supervisor.
//!
//! A desktop shell depends on a separately implemented backend server
//! process: the shell must bring it up on startup, keep it alive for the
//! session, and tear it down cleanly on exit. This crate holds the
//! decision logic of that supervisor — launch classification, readiness
//! probing, health classification, the bounded-retry restart policy, and
//! the graceful-then-forced shutdown coordinator — as verified functions
//! from plain state and observations to the next state and action. The
//! surrounding process I/O (spawning, port probes, signals, sleeps) is
//! performed by an unverified driver that feeds observations in and
//! carries actions out.

pub mod config;
pub mod launcher;
pub mod monitor;
pub mod policy;
pub mod prober;
pub mod shutdown;
pub mod supervisor;
