//! The possible stat modifiers that can qualify a stat.

use vstd::prelude::*;

verus! {

/// The possible stat modifiers. `NoModifier` is the default empty value and
/// lets the base stat be used on its own.
#[derive(Clone, Copy, PartialEq, Eq, Structural, Hash, Debug, Default)]
pub enum StatModifier {
    /// No modifier; the default empty value.
    #[default]
    NoModifier,
    /// A reduction in incoming values; for example, damage reduction.
    Reduction,
    /// A passive increase in a value over time; for example, health
    /// regeneration.
    Regeneration,
    /// An increase in outgoing values; for example, attack amplification.
    Amplification,
    /// A percentage-based reduction in incoming values, applied before
    /// armor and defense.
    Resistance,
    /// How quickly an entity can perform actions; for example, attack
    /// speed.
    Speed,
    /// The area affected by an entity; for example, projectile size.
    Size,
    /// How long an entity exists; for example, a projectile's lifetime.
    Lifetime,
    /// How far an entity can reach; for example, attack range.
    Range,
    /// The probability of an event; for example, critical strike chance.
    Chance,
    /// How long an effect lasts; for example, stun duration.
    Duration,
    /// How long an entity must wait before acting again.
    Cooldown,
    /// How much of a resource an action costs; the category determines the
    /// kind of cost.
    Cost,
    /// How much of a resistance an entity can ignore; for example, armor
    /// penetration.
    Penetration,
    /// How much of a value an entity can steal; for example, life steal.
    Vampirism,
}

impl StatModifier {
    /// The stable numeric code of the variant, used by the structural
    /// encoding; it does not change when variants are reordered.
    pub open spec fn spec_code(self) -> u8 {
        match self {
            StatModifier::NoModifier => 0,
            StatModifier::Reduction => 1,
            StatModifier::Regeneration => 2,
            StatModifier::Amplification => 3,
            StatModifier::Resistance => 4,
            StatModifier::Speed => 5,
            StatModifier::Size => 6,
            StatModifier::Lifetime => 7,
            StatModifier::Range => 8,
            StatModifier::Chance => 9,
            StatModifier::Duration => 10,
            StatModifier::Cooldown => 11,
            StatModifier::Cost => 12,
            StatModifier::Penetration => 13,
            StatModifier::Vampirism => 14,
        }
    }

    /// Encode the variant as its stable numeric code.
    pub fn code(&self) -> (r: u8)
        ensures
            r == self.spec_code(),
    {
        match self {
            StatModifier::NoModifier => 0,
            StatModifier::Reduction => 1,
            StatModifier::Regeneration => 2,
            StatModifier::Amplification => 3,
            StatModifier::Resistance => 4,
            StatModifier::Speed => 5,
            StatModifier::Size => 6,
            StatModifier::Lifetime => 7,
            StatModifier::Range => 8,
            StatModifier::Chance => 9,
            StatModifier::Duration => 10,
            StatModifier::Cooldown => 11,
            StatModifier::Cost => 12,
            StatModifier::Penetration => 13,
            StatModifier::Vampirism => 14,
        }
    }

    /// Decode a numeric code back into the variant that carries it.
    ///
    /// Returns the unique variant whose code is `code`, or `None` when no
    /// variant carries it.
    pub fn from_code(code: u8) -> (r: Option<StatModifier>)
        ensures
            forall|s: StatModifier| r == Some(s) <==> s.spec_code() == code,
    {
        match code {
            0u8 => Some(StatModifier::NoModifier),
            1u8 => Some(StatModifier::Reduction),
            2u8 => Some(StatModifier::Regeneration),
            3u8 => Some(StatModifier::Amplification),
            4u8 => Some(StatModifier::Resistance),
            5u8 => Some(StatModifier::Speed),
            6u8 => Some(StatModifier::Size),
            7u8 => Some(StatModifier::Lifetime),
            8u8 => Some(StatModifier::Range),
            9u8 => Some(StatModifier::Chance),
            10u8 => Some(StatModifier::Duration),
            11u8 => Some(StatModifier::Cooldown),
            12u8 => Some(StatModifier::Cost),
            13u8 => Some(StatModifier::Penetration),
            14u8 => Some(StatModifier::Vampirism),
            _ => None,
        }
    }
}

} // verus!
