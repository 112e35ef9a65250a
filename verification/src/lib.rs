//! The decisions of an AMAX node, verified.
//!
//! [`service`] decides how a node starts: which steps are taken, in which
//! order and with which arguments, where the Frontier database lies, which
//! background tasks run. [`chain_spec`] describes the Wall-e networks and
//! builds their genesis state. Everything that touches the network, the disk
//! or the task executor is left to the program that drives this library.

pub mod chain_spec;
pub mod executor;
pub mod service;
