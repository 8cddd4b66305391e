//! Cold-start lifecycle of a sealed secrets server: decide, from the state the
//! server reports and the operator's intent, which control-plane call comes next.
//!
//! The library performs no I/O. A driver performs each `Action` that the
//! `Orchestrator` hands out and feeds the `Outcome` back.

pub mod model;
pub mod error;
pub mod source;
pub mod plan;
pub mod orchestrator;
pub mod laws;
