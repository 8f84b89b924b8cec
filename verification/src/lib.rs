//! Deterministic numeric core of a fleet-battle calculator.
//!
//! Given a snapshot of attacker and target state and a set of situational
//! modifiers, the crate derives attack power (through a precap / soft-cap /
//! postcap pipeline) and the accuracy, evasion and hit-rate parameters that
//! a separate outcome-resolution layer consumes. Everything is a pure
//! computation over fixed-point numbers; no call mutates shared state.

pub mod fixed;
pub mod attack_power;
pub mod modifier;
pub mod night;
