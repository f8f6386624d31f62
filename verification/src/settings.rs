//! Optional validity thresholds supplied by external configuration.

use vstd::prelude::*;

verus! {

/// The optional thresholds that `Character::is_invalid` evaluates.
///
/// Each threshold is independently either present with a value or absent;
/// an absent threshold disables the corresponding check. Values are
/// fixed-point integers at the caller's scale; the thresholds whose names
/// end in a percentage-like stat (`minBoonDuration`, `minQuicknessDuration`,
/// `minCritChance`, `minOutgoingHealing`) are given in percent and divided
/// by 100 (exactly, over the underlying rationals) before comparison.
#[allow(non_snake_case)]
#[derive(Debug, Clone, Copy)]
pub struct Settings {
    pub minBoonDuration: Option<i64>,
    pub minQuicknessDuration: Option<i64>,
    pub minHealingPower: Option<i64>,
    pub minToughness: Option<i64>,
    pub maxToughness: Option<i64>,
    pub minHealth: Option<i64>,
    pub minCritChance: Option<i64>,
    pub minOutgoingHealing: Option<i64>,
}

impl Settings {
    /// A configuration with every threshold absent: no check applies.
    pub fn unconstrained() -> (s: Settings)
        ensures
            s.minBoonDuration is None,
            s.minQuicknessDuration is None,
            s.minHealingPower is None,
            s.minToughness is None,
            s.maxToughness is None,
            s.minHealth is None,
            s.minCritChance is None,
            s.minOutgoingHealing is None,
    {
        Settings {
            minBoonDuration: None,
            minQuicknessDuration: None,
            minHealingPower: None,
            minToughness: None,
            maxToughness: None,
            minHealth: None,
            minCritChance: None,
            minOutgoingHealing: None,
        }
    }
}

} // verus!
