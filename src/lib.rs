//! Code-execution sandbox: the decisions behind isolating, probing, driving and
//! tearing down an anchor process, stated and proved as pure transitions.

pub mod config;
pub mod execution;
pub mod isolation;
pub mod sandbox;
pub mod termination;
pub mod text;
