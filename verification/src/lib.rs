//! A batch-transfer service for a Soroban host: one authorised account pays
//! many recipients in a single all-or-nothing invocation, and an administrator
//! can hand over its role or replace the program's code.

pub mod action;
pub mod batch;
pub mod contract;
pub mod error;
pub mod host;
pub mod laws;
pub mod world;
