//! Escrow lifecycle and trust engine.
//!
//! A buyer's funds are held until a delivery condition is met, with a
//! fallback arbitration path when buyer and seller disagree.  The crate
//! covers the escrow state machine, its PIN-gated release rule, the
//! arbitrator majority-voting dispute resolver, and the trust-scoring
//! model that drives escrow duration recommendations.
//!
//! Values that collaborators exchange with the core are plain data:
//! identifiers are 128-bit integers, money amounts are integer counts of
//! cents, timestamps are unix seconds, and trust scores are integer
//! tenths of a point on the 0-100 scale.  Conversions to and from richer
//! representations happen at the boundary, never inside the core.

pub mod contract;
pub mod errors;
pub mod sys;
pub mod trust;
pub mod types;
