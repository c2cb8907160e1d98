//! An event-sourced clinical encounter: its state is derived from an ordered
//! log of domain events, and commands record new events only after the
//! current state has been consulted.

pub mod aggregate_root;
pub mod domain_error;
pub mod encounter_aggregate;
pub mod encounter_event;
