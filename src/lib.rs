//! A closed-loop CPU autoscaler for cluster workloads: the pure parts of the
//! controller (owner-name derivation, usage aggregation, the scaling policy and
//! the reconciliation state machine) with their contracts.
pub mod owner;
pub mod usage;
pub mod decision;
pub mod reconcile;
pub mod query;
pub mod settings;
pub mod cli;
