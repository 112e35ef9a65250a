//! The start of a node, from its configuration to a running network.

pub mod action;
pub mod components;
pub mod config;
pub mod database;
pub mod inherents;
pub mod keystore;
pub mod laws;
pub mod startup;
pub mod steps;
pub mod tasks;
