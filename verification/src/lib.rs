//! Credential resolution, agent-client selection and permission provisioning
//! for the control plane, together with the entities they touch.
//!
//! Nothing here suspends: work against the store is left to the caller, which
//! puts the query that a function names, hands in what the store answered, and
//! carries out what the function decides.

pub mod config;
pub mod entities;
pub mod error;
pub mod helpers;
