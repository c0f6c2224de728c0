//! A deterministic trading decision gate: streaming market indicators, a
//! scoring function, an arbitration between a math verdict and an optional
//! neural verdict, a risk rule engine, and a hashed audit trail.
//!
//! All quantities are fixed-point integers; each module gives its scales.

pub mod text;
pub mod risk;
pub mod indicators;
pub mod signal;
pub mod audit;
pub mod guardian;
