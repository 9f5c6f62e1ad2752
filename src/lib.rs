//! Causal trace propagation between a dispatcher and an executor service:
//! trace identities, their wire encoding, span lifecycles, and the decisions
//! taken at each hop.

pub mod carrier;
pub mod config;
pub mod context;
pub mod dispatcher;
pub mod executor;
pub mod ids;
pub mod keyed;
pub mod span;
pub mod types;
