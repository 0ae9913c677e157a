//! The contact laws a plant selects between, as types: each names one strategy for where a slot's
//! contact force comes from.
use vstd::prelude::*;

verus! {

/// ReportContact names the law that takes the world's report at its word: the readout shared
/// evenly over the slot's points and clamped to the slot's command bound.
#[derive(Clone, Copy, Debug)]
pub struct ReportContact;

/// PenaltyContact names the law that reads this side's geometry and nothing else: `k * pen / n` at
/// each of the slot's `n` points.
#[derive(Clone, Copy, Debug)]
pub struct PenaltyContact;

/// FlooredContact names the law that raises the report to this side's own geometry: at each point
/// the larger of the report's share and the penalty, with no clamp.
#[derive(Clone, Copy, Debug)]
pub struct FlooredContact;

} // verus!
