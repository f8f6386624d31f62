//! The reporting-grade snapshot of a finalized candidate and the schema
//! of its computed result breakdown.

use vstd::prelude::*;

use crate::affix::Affix;
use crate::affix::GEAR_SLOTS;
use crate::attribute::Attribute;
use crate::attribute::Attributes;
use crate::character::Character;

verus! {

/// Number of damage categories in the coefficient and breakdown arrays.
pub const DAMAGE_CATEGORIES: usize = 7;

/// Number of entries in the effective positive/negative value arrays.
pub const EFFECTIVE_VALUES: usize = 5;

/// Number of entries in the per-result gear statistics summary.
pub const GEAR_STATS: usize = 10;

/// A linear coefficient for one damage category.
#[derive(Debug, Clone, Copy)]
pub struct CoefficientDetails {
    pub slope: i64,
    pub intercept: i64,
}

/// Per-damage-type linear coefficients, one entry per fixed category.
#[allow(non_snake_case)]
#[derive(Debug, Clone, Copy)]
pub struct CoefficientHelper {
    pub Bleeding: CoefficientDetails,
    pub Burning: CoefficientDetails,
    pub Confusion: CoefficientDetails,
    pub Poison: CoefficientDetails,
    pub Power: CoefficientDetails,
    pub Power2: CoefficientDetails,
    pub Torment: CoefficientDetails,
}

/// The computed result breakdown attached to a reported candidate. Every
/// field but `value` starts at zero and is overwritten by the external
/// scoring logic before the result is reported.
#[allow(non_snake_case)]
#[derive(Debug, Clone, Copy)]
pub struct Results {
    pub coefficientHelper: CoefficientHelper,
    pub damageBreakdown: [i64; DAMAGE_CATEGORIES],
    pub effectiveDamageDistribution: [i64; DAMAGE_CATEGORIES],
    pub effectiveNegativeValues: [i64; EFFECTIVE_VALUES],
    pub effectivePositiveValues: [i64; EFFECTIVE_VALUES],
    pub value: i64,
}

/// Both fields of a coefficient entry are zero.
pub open spec fn coefficient_zero(c: CoefficientDetails) -> bool {
    c.slope == 0 && c.intercept == 0
}

/// Every numeric field of a result breakdown except `value` is zero.
pub open spec fn results_baseline(r: Results) -> bool {
    &&& coefficient_zero(r.coefficientHelper.Bleeding)
    &&& coefficient_zero(r.coefficientHelper.Burning)
    &&& coefficient_zero(r.coefficientHelper.Confusion)
    &&& coefficient_zero(r.coefficientHelper.Poison)
    &&& coefficient_zero(r.coefficientHelper.Power)
    &&& coefficient_zero(r.coefficientHelper.Power2)
    &&& coefficient_zero(r.coefficientHelper.Torment)
    &&& forall|i: int| 0 <= i < DAMAGE_CATEGORIES ==> r.damageBreakdown@[i] == 0
    &&& forall|i: int| 0 <= i < DAMAGE_CATEGORIES ==> r.effectiveDamageDistribution@[i] == 0
    &&& forall|i: int| 0 <= i < EFFECTIVE_VALUES ==> r.effectiveNegativeValues@[i] == 0
    &&& forall|i: int| 0 <= i < EFFECTIVE_VALUES ==> r.effectivePositiveValues@[i] == 0
}

/// An enriched snapshot of a finalized candidate: copies of both
/// attribute vectors, the gear selection, a gear statistics summary, the
/// combination identifier, and the computed result breakdown. It owns its
/// data independently of the originating `Character`.
#[derive(Debug, Clone)]
pub struct ResultCharacter {
    pub base_attributes: Attributes,
    pub attributes: Attributes,
    pub gear: [Affix; GEAR_SLOTS],
    pub gear_stats: [i64; GEAR_STATS],
    pub combination_id: u32,
    pub results: Results,
}

/// What `ResultCharacter::from` promises of its snapshot: the attribute
/// vectors, gear and combination identifier are copied exactly; the gear
/// statistics and the whole result breakdown are zeroed, except that
/// `results.value` holds the candidate's score at the time of the
/// snapshot.
pub open spec fn snapshot_of(c: Character, r: ResultCharacter) -> bool {
    &&& r.base_attributes == c.base_attributes
    &&& r.attributes == c.attributes
    &&& r.gear == c.gear
    &&& forall|i: int| 0 <= i < GEAR_STATS ==> r.gear_stats@[i] == 0
    &&& r.combination_id == c.combination_id
    &&& results_baseline(r.results)
    &&& r.results.value == c.spec_score()
}

/// What `ResultCharacter::to_character` promises of the reconstructed
/// candidate: every retained field is copied back exactly, and the
/// ranking attribute — which the snapshot does not retain — is set to
/// `Power`.
pub open spec fn reconstruction_of(r: ResultCharacter, c: Character) -> bool {
    &&& c.base_attributes == r.base_attributes
    &&& c.attributes == r.attributes
    &&& c.rankby == Attribute::Power
    &&& c.gear == r.gear
    &&& c.combination_id == r.combination_id
}

impl ResultCharacter {
    /// Snapshot a finalized candidate: deep-copy its attribute vectors,
    /// gear and combination identifier, record its score as
    /// `results.value`, and zero-initialize the gear statistics and the
    /// rest of the result breakdown for the external scoring logic to
    /// fill in.
    pub fn from(character: &Character) -> (r: ResultCharacter)
        ensures
            snapshot_of(*character, r),
    {
        ResultCharacter {
            base_attributes: character.base_attributes,
            attributes: character.attributes,
            gear: character.gear,
            gear_stats: [0i64; GEAR_STATS],
            combination_id: character.combination_id,
            results: Results {
                value: character.score(),
                coefficientHelper: CoefficientHelper {
                    Bleeding: CoefficientDetails { slope: 0, intercept: 0 },
                    Burning: CoefficientDetails { slope: 0, intercept: 0 },
                    Confusion: CoefficientDetails { slope: 0, intercept: 0 },
                    Poison: CoefficientDetails { slope: 0, intercept: 0 },
                    Power: CoefficientDetails { slope: 0, intercept: 0 },
                    Power2: CoefficientDetails { slope: 0, intercept: 0 },
                    Torment: CoefficientDetails { slope: 0, intercept: 0 },
                },
                damageBreakdown: [0i64; DAMAGE_CATEGORIES],
                effectiveDamageDistribution: [0i64; DAMAGE_CATEGORIES],
                effectiveNegativeValues: [0i64; EFFECTIVE_VALUES],
                effectivePositiveValues: [0i64; EFFECTIVE_VALUES],
            },
        }
    }

    /// Reconstruct a minimal candidate from the snapshot, for re-scoring
    /// or comparison. The snapshot does not retain the original ranking
    /// attribute, so `rankby` always comes back as `Power`: the
    /// conversion is lossy in that one field.
    pub fn to_character(&self) -> (c: Character)
        ensures
            reconstruction_of(*self, c),
    {
        Character {
            base_attributes: self.base_attributes,
            attributes: self.attributes,
            rankby: Attribute::Power,
            gear: self.gear,
            combination_id: self.combination_id,
        }
    }
}

/// Law: snapshotting a candidate and converting the snapshot back yields
/// a candidate with the same attribute vectors, gear and combination
/// identifier, but with `rankby` equal to `Power` whatever the original
/// ranked by.
pub proof fn lemma_snapshot_round_trip(c: Character, r: ResultCharacter, back: Character)
    requires
        snapshot_of(c, r),
        reconstruction_of(r, back),
    ensures
        back.base_attributes == c.base_attributes,
        back.attributes == c.attributes,
        back.gear == c.gear,
        back.combination_id == c.combination_id,
        back.rankby == Attribute::Power,
{
}

/// Law: a snapshot records the candidate's score as `results.value`.
pub proof fn lemma_snapshot_records_score(c: Character, r: ResultCharacter)
    requires
        snapshot_of(c, r),
    ensures
        r.results.value == c.spec_score(),
{
}

/// Law: immediately after a snapshot, every numeric field of the result
/// breakdown other than `value`, and every gear statistic, is zero, for
/// any input candidate.
pub proof fn lemma_snapshot_baseline(c: Character, r: ResultCharacter)
    requires
        snapshot_of(c, r),
    ensures
        results_baseline(r.results),
        forall|i: int| 0 <= i < GEAR_STATS ==> r.gear_stats@[i] == 0,
{
}

} // verus!
