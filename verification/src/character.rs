//! The candidate under evaluation by the search engine.

use vstd::prelude::*;

use crate::affix::Affix;
use crate::affix::GEAR_SLOTS;
use crate::attribute::Attribute;
use crate::attribute::Attributes;
use crate::attribute::AttributesArray;
use crate::attribute::ATTRIBUTE_COUNT;
use crate::settings::Settings;

verus! {

/// Every entry of an attribute vector is zero.
pub open spec fn all_zero(s: Seq<i64>) -> bool {
    forall|i: int| 0 <= i < s.len() ==> s[i] == 0
}

/// A configured minimum is violated: the threshold is present and the
/// value falls below it.
pub open spec fn violates_min(value: int, threshold: Option<i64>) -> bool {
    threshold matches Some(t) && value < t
}

/// A configured maximum is violated: the threshold is present and the
/// value exceeds it.
pub open spec fn violates_max(value: int, threshold: Option<i64>) -> bool {
    threshold matches Some(t) && value > t
}

/// A configured percentage minimum is violated: the threshold is present
/// and the value falls below one hundredth of it. Over fixed-point
/// integers the exact form of `value < threshold / 100` is
/// `100 * value < threshold`.
pub open spec fn violates_min_percent(value: int, threshold: Option<i64>) -> bool {
    threshold matches Some(t) && 100 * value < t
}

/// One candidate character in the combinatorial search: a cheap, copyable
/// value holding the attributes before and after modifiers, the ranking
/// attribute, the equipped gear, and an opaque combination identifier.
#[derive(Debug, Clone, Copy)]
pub struct Character {
    /// Attribute values before equipment/combination-specific modifiers.
    pub base_attributes: Attributes,
    /// Fully resolved attribute values after all modifiers, written by the
    /// external search engine.
    pub attributes: Attributes,
    /// The attribute whose resolved value is the optimization objective.
    pub rankby: Attribute,
    /// The equipped gear modifiers defining this candidate.
    pub gear: [Affix; GEAR_SLOTS],
    /// Opaque identifier of the combination that produced this candidate;
    /// `u32::MAX` means the value did not come from a combination.
    pub combination_id: u32,
}

impl Character {
    /// The optimization objective: the resolved value of the ranking
    /// attribute.
    pub open spec fn spec_score(self) -> i64 {
        self.attributes@[self.rankby.ordinal()]
    }

    /// The candidate violates at least one configured threshold.
    ///
    /// Each check applies only when its threshold is present; the result
    /// is the disjunction of the applicable checks.
    pub open spec fn spec_is_invalid(self, settings: Settings) -> bool {
        let a = self.attributes@;
        ||| violates_min_percent(
            a[Attribute::BoonDuration.ordinal()] as int,
            settings.minBoonDuration,
        )
        ||| violates_min_percent(
            a[Attribute::BoonDuration.ordinal()] + a[Attribute::QuicknessDuration.ordinal()],
            settings.minQuicknessDuration,
        )
        ||| violates_min(a[Attribute::HealingPower.ordinal()] as int, settings.minHealingPower)
        ||| violates_min(a[Attribute::Toughness.ordinal()] as int, settings.minToughness)
        ||| violates_max(a[Attribute::Toughness.ordinal()] as int, settings.maxToughness)
        ||| violates_min(a[Attribute::Health.ordinal()] as int, settings.minHealth)
        ||| violates_min_percent(
            a[Attribute::CriticalChance.ordinal()] as int,
            settings.minCritChance,
        )
        ||| violates_min_percent(
            a[Attribute::OutgoingHealing.ordinal()] as int,
            settings.minOutgoingHealing,
        )
    }

    /// A fresh candidate: all attribute values zero, every gear slot
    /// empty, and the combination identifier unset.
    pub fn new(rankby: Attribute) -> (c: Character)
        ensures
            all_zero(c.base_attributes@),
            all_zero(c.attributes@),
            c.rankby == rankby,
            forall|i: int| 0 <= i < GEAR_SLOTS ==> c.gear@[i] == Affix::NoAffix,
            c.combination_id == u32::MAX,
    {
        Character {
            base_attributes: [0i64; ATTRIBUTE_COUNT],
            attributes: [0i64; ATTRIBUTE_COUNT],
            rankby,
            gear: [Affix::NoAffix; GEAR_SLOTS],
            combination_id: u32::MAX,
        }
    }

    /// Zero both attribute vectors in place, so the value can be recycled
    /// across search iterations. The gear, the ranking attribute and the
    /// combination identifier are kept: a caller recycling the value for a
    /// different candidate must overwrite those itself.
    pub fn clear(&mut self)
        ensures
            all_zero(final(self).base_attributes@),
            all_zero(final(self).attributes@),
            final(self).rankby == old(self).rankby,
            final(self).gear == old(self).gear,
            final(self).combination_id == old(self).combination_id,
    {
        let mut i: usize = 0;
        while i < ATTRIBUTE_COUNT
            invariant
                i <= ATTRIBUTE_COUNT,
                forall|j: int| 0 <= j < i ==> self.base_attributes@[j] == 0,
                forall|j: int| 0 <= j < i ==> self.attributes@[j] == 0,
                self.rankby == old(self).rankby,
                self.gear == old(self).gear,
                self.combination_id == old(self).combination_id,
            decreases ATTRIBUTE_COUNT - i,
        {
            self.base_attributes[i] = 0;
            self.attributes[i] = 0;
            i = i + 1;
        }
    }

    /// The optimization objective read by the external search engine.
    pub fn score(&self) -> (r: i64)
        ensures
            r == self.spec_score(),
    {
        self.attributes.get_a(self.rankby)
    }

    /// Whether the candidate violates any configured threshold, and is
    /// therefore to be discarded by the search engine.
    pub fn is_invalid(&self, settings: &Settings) -> (r: bool)
        ensures
            r == self.spec_is_invalid(*settings),
    {
        let boon: i64 = self.attributes.get_a(Attribute::BoonDuration);
        let quickness: i64 = self.attributes.get_a(Attribute::QuicknessDuration);
        let healing_power: i64 = self.attributes.get_a(Attribute::HealingPower);
        let toughness: i64 = self.attributes.get_a(Attribute::Toughness);
        let health: i64 = self.attributes.get_a(Attribute::Health);
        let crit_chance: i64 = self.attributes.get_a(Attribute::CriticalChance);
        let outgoing_healing: i64 = self.attributes.get_a(Attribute::OutgoingHealing);

        let invalid = (match settings.minBoonDuration {
            Some(t) => 100 * (boon as i128) < t as i128,
            None => false,
        }) || (match settings.minQuicknessDuration {
            Some(t) => 100 * (boon as i128 + quickness as i128) < t as i128,
            None => false,
        }) || (match settings.minHealingPower {
            Some(t) => healing_power < t,
            None => false,
        }) || (match settings.minToughness {
            Some(t) => toughness < t,
            None => false,
        }) || (match settings.maxToughness {
            Some(t) => toughness > t,
            None => false,
        }) || (match settings.minHealth {
            Some(t) => health < t,
            None => false,
        }) || (match settings.minCritChance {
            Some(t) => 100 * (crit_chance as i128) < t as i128,
            None => false,
        }) || (match settings.minOutgoingHealing {
            Some(t) => 100 * (outgoing_healing as i128) < t as i128,
            None => false,
        });

        invalid
    }
}

/// Law: a fresh candidate scores zero, whatever attribute it ranks by.
/// More generally, any candidate whose resolved attributes are all zero
/// scores zero.
pub proof fn lemma_zeroed_score(c: Character)
    requires
        c.attributes@.len() == ATTRIBUTE_COUNT,
        all_zero(c.attributes@),
    ensures
        c.spec_score() == 0,
{
    c.rankby.lemma_ordinal_in_range();
}

/// Law: after both attribute vectors are zeroed, every attribute reads
/// zero, whatever values the vectors held before.
pub proof fn lemma_cleared_reads_zero(c: Character, a: Attribute)
    requires
        c.attributes@.len() == ATTRIBUTE_COUNT,
        c.base_attributes@.len() == ATTRIBUTE_COUNT,
        all_zero(c.attributes@),
        all_zero(c.base_attributes@),
    ensures
        c.attributes@[a.ordinal()] == 0,
        c.base_attributes@[a.ordinal()] == 0,
{
    a.lemma_ordinal_in_range();
}

/// Law: with every threshold absent, no candidate is invalid, whatever
/// its attribute values.
pub proof fn lemma_unconstrained_is_valid(c: Character, settings: Settings)
    requires
        settings.minBoonDuration is None,
        settings.minQuicknessDuration is None,
        settings.minHealingPower is None,
        settings.minToughness is None,
        settings.maxToughness is None,
        settings.minHealth is None,
        settings.minCritChance is None,
        settings.minOutgoingHealing is None,
    ensures
        !c.spec_is_invalid(settings),
{
}

} // verus!
