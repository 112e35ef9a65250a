//! The networks that a node can join.

pub mod genesis;
pub mod properties;
pub mod wall_e;
