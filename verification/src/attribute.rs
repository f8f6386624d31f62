//! The closed set of named character statistics and the fixed-size
//! attribute vector indexed by it.
//!
//! Every attribute has a stable ordinal position that doubles as the array
//! index, so a point read, overwrite or accumulate is a single bounds-safe
//! array access: the `Attribute` type is the only index domain, and its
//! ordinal is proved to lie below `ATTRIBUTE_COUNT`.

use vstd::prelude::*;

verus! {

/// Number of named attributes; the attribute vector has exactly this length.
pub const ATTRIBUTE_COUNT: usize = 20;

/// One named numeric character statistic.
///
/// The set is closed: no attribute is added or removed at runtime, and the
/// ordinal positions are stable.
#[derive(Debug, Clone, Copy, PartialEq, Eq)]
pub enum Attribute {
    Power,
    Precision,
    Toughness,
    Vitality,
    Ferocity,
    ConditionDamage,
    Expertise,
    Concentration,
    HealingPower,
    AgonyResistance,
    Health,
    Armor,
    CriticalChance,
    CriticalDamage,
    ConditionDuration,
    BoonDuration,
    QuicknessDuration,
    AlacrityDuration,
    OutgoingHealing,
    EffectivePower,
}

impl Attribute {
    /// Stable ordinal position of this attribute, used as the array index.
    pub open spec fn ordinal(self) -> int {
        match self {
            Attribute::Power => 0,
            Attribute::Precision => 1,
            Attribute::Toughness => 2,
            Attribute::Vitality => 3,
            Attribute::Ferocity => 4,
            Attribute::ConditionDamage => 5,
            Attribute::Expertise => 6,
            Attribute::Concentration => 7,
            Attribute::HealingPower => 8,
            Attribute::AgonyResistance => 9,
            Attribute::Health => 10,
            Attribute::Armor => 11,
            Attribute::CriticalChance => 12,
            Attribute::CriticalDamage => 13,
            Attribute::ConditionDuration => 14,
            Attribute::BoonDuration => 15,
            Attribute::QuicknessDuration => 16,
            Attribute::AlacrityDuration => 17,
            Attribute::OutgoingHealing => 18,
            Attribute::EffectivePower => 19,
        }
    }

    /// Every ordinal is a valid index into the attribute vector.
    pub proof fn lemma_ordinal_in_range(self)
        ensures
            0 <= self.ordinal() < ATTRIBUTE_COUNT,
    {
    }

    /// The array index of this attribute.
    pub fn index(self) -> (i: usize)
        ensures
            i == self.ordinal(),
            i < ATTRIBUTE_COUNT,
    {
        match self {
            Attribute::Power => 0,
            Attribute::Precision => 1,
            Attribute::Toughness => 2,
            Attribute::Vitality => 3,
            Attribute::Ferocity => 4,
            Attribute::ConditionDamage => 5,
            Attribute::Expertise => 6,
            Attribute::Concentration => 7,
            Attribute::HealingPower => 8,
            Attribute::AgonyResistance => 9,
            Attribute::Health => 10,
            Attribute::Armor => 11,
            Attribute::CriticalChance => 12,
            Attribute::CriticalDamage => 13,
            Attribute::ConditionDuration => 14,
            Attribute::BoonDuration => 15,
            Attribute::QuicknessDuration => 16,
            Attribute::AlacrityDuration => 17,
            Attribute::OutgoingHealing => 18,
            Attribute::EffectivePower => 19,
        }
    }
}

/// The attribute vector: one fixed-point value per attribute, addressed
/// exclusively by `Attribute` ordinal.
pub type Attributes = [i64; ATTRIBUTE_COUNT];

/// Point read, point overwrite and point accumulate on an attribute
/// vector. All are total: the `Attribute` domain is closed, so every
/// index is valid by construction.
pub trait AttributesArray: View<V = Seq<i64>> {
    /// The value stored for `attr`.
    fn get_a(&self, attr: Attribute) -> (r: i64)
        requires
            self@.len() == ATTRIBUTE_COUNT,
        ensures
            r == self@[attr.ordinal()],
    ;

    /// Overwrite the value stored for `attr`.
    fn set_a(&mut self, attr: Attribute, value: i64)
        requires
            old(self)@.len() == ATTRIBUTE_COUNT,
        ensures
            final(self)@ == old(self)@.update(attr.ordinal(), value),
    ;

    /// Add `value` to the value stored for `attr`.
    fn add_a(&mut self, attr: Attribute, value: i64)
        requires
            old(self)@.len() == ATTRIBUTE_COUNT,
            i64::MIN <= old(self)@[attr.ordinal()] + value <= i64::MAX,
        ensures
            final(self)@ == old(self)@.update(
                attr.ordinal(),
                (old(self)@[attr.ordinal()] + value) as i64,
            ),
    ;
}

impl AttributesArray for Attributes {
    fn get_a(&self, attr: Attribute) -> (r: i64) {
        let i: usize = attr.index();
        self[i]
    }

    fn set_a(&mut self, attr: Attribute, value: i64) {
        let i: usize = attr.index();
        self[i] = value;
    }

    fn add_a(&mut self, attr: Attribute, value: i64) {
        let i: usize = attr.index();
        let cur: i64 = self[i];
        self[i] = cur + value;
    }
}

/// Law: writing `x` at attribute `a` and then reading `a` yields `x`,
/// for every attribute `a`.
pub proof fn lemma_set_then_get(s: Seq<i64>, a: Attribute, x: i64)
    requires
        s.len() == ATTRIBUTE_COUNT,
    ensures
        s.update(a.ordinal(), x)[a.ordinal()] == x,
{
    a.lemma_ordinal_in_range();
}

/// Law: adding `d` at attribute `a` and then reading `a` yields the old
/// value plus `d`, for every attribute `a`.
pub proof fn lemma_add_then_get(s: Seq<i64>, a: Attribute, d: i64)
    requires
        s.len() == ATTRIBUTE_COUNT,
        i64::MIN <= s[a.ordinal()] + d <= i64::MAX,
    ensures
        s.update(a.ordinal(), (s[a.ordinal()] + d) as i64)[a.ordinal()] == s[a.ordinal()] + d,
{
    a.lemma_ordinal_in_range();
}

} // verus!
