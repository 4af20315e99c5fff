//! The base stats that an entity can have.
//!
//! A base stat is the very root of a stat, as in `DamageResistance` or
//! `DamageAmplification`, whose base stat is `Damage`. Any additional base
//! stats belong here.

use vstd::prelude::*;

verus! {

/// The base stats that an entity can have. `NoStat` is the default empty
/// value.
#[derive(Clone, Copy, PartialEq, Eq, Structural, Hash, Debug, Default)]
pub enum BaseStat {
    /// No stat; the default empty value.
    #[default]
    NoStat,
    /// The life of an entity, typically measured in hit points.
    Health,
    /// The magical energy of an entity, typically used to cast spells.
    Mana,
    /// The physical energy of an entity, used for physical actions.
    Stamina,
    /// The damage that an entity can deal.
    Attack,
    /// The damage that an entity receives.
    Damage,
    /// The ability of an entity to resist damage.
    Defense,
    /// The movement speed of an entity.
    Speed,
    /// The chance of an entity to deal critical damage.
    CriticalStrike,
    /// The physical resistance of an entity.
    Armor,
    /// The ability of an entity to avoid attacks; a chance to dodge.
    Evasion,
    /// The ability of an entity to hit a target; a chance to hit.
    Accuracy,
    /// The ability of an entity to stun a target.
    Stun,
    /// The ability of an entity to silence a target.
    Silence,
    /// The ability of an entity to slow a target.
    Slow,
    /// The ability of an entity to root a target.
    Root,
    /// The ability of an entity to fear a target.
    Fear,
    /// The ability of an entity to charm a target.
    Charm,
    /// The ability of an entity to taunt a target.
    Taunt,
    /// The ability of an entity to knock a target back.
    Knockback,
    /// Details about the projectiles of an entity.
    Projectile,
}

impl BaseStat {
    /// The stable numeric code of the variant, used by the structural
    /// encoding; it does not change when variants are reordered.
    pub open spec fn spec_code(self) -> u8 {
        match self {
            BaseStat::NoStat => 0,
            BaseStat::Health => 1,
            BaseStat::Mana => 2,
            BaseStat::Stamina => 3,
            BaseStat::Attack => 4,
            BaseStat::Damage => 5,
            BaseStat::Defense => 6,
            BaseStat::Speed => 7,
            BaseStat::CriticalStrike => 8,
            BaseStat::Armor => 9,
            BaseStat::Evasion => 10,
            BaseStat::Accuracy => 11,
            BaseStat::Stun => 12,
            BaseStat::Silence => 13,
            BaseStat::Slow => 14,
            BaseStat::Root => 15,
            BaseStat::Fear => 16,
            BaseStat::Charm => 17,
            BaseStat::Taunt => 18,
            BaseStat::Knockback => 19,
            BaseStat::Projectile => 20,
        }
    }

    /// Encode the variant as its stable numeric code.
    pub fn code(&self) -> (r: u8)
        ensures
            r == self.spec_code(),
    {
        match self {
            BaseStat::NoStat => 0,
            BaseStat::Health => 1,
            BaseStat::Mana => 2,
            BaseStat::Stamina => 3,
            BaseStat::Attack => 4,
            BaseStat::Damage => 5,
            BaseStat::Defense => 6,
            BaseStat::Speed => 7,
            BaseStat::CriticalStrike => 8,
            BaseStat::Armor => 9,
            BaseStat::Evasion => 10,
            BaseStat::Accuracy => 11,
            BaseStat::Stun => 12,
            BaseStat::Silence => 13,
            BaseStat::Slow => 14,
            BaseStat::Root => 15,
            BaseStat::Fear => 16,
            BaseStat::Charm => 17,
            BaseStat::Taunt => 18,
            BaseStat::Knockback => 19,
            BaseStat::Projectile => 20,
        }
    }

    /// Decode a numeric code back into the variant that carries it.
    ///
    /// Returns the unique variant whose code is `code`, or `None` when no
    /// variant carries it.
    pub fn from_code(code: u8) -> (r: Option<BaseStat>)
        ensures
            forall|s: BaseStat| r == Some(s) <==> s.spec_code() == code,
    {
        match code {
            0u8 => Some(BaseStat::NoStat),
            1u8 => Some(BaseStat::Health),
            2u8 => Some(BaseStat::Mana),
            3u8 => Some(BaseStat::Stamina),
            4u8 => Some(BaseStat::Attack),
            5u8 => Some(BaseStat::Damage),
            6u8 => Some(BaseStat::Defense),
            7u8 => Some(BaseStat::Speed),
            8u8 => Some(BaseStat::CriticalStrike),
            9u8 => Some(BaseStat::Armor),
            10u8 => Some(BaseStat::Evasion),
            11u8 => Some(BaseStat::Accuracy),
            12u8 => Some(BaseStat::Stun),
            13u8 => Some(BaseStat::Silence),
            14u8 => Some(BaseStat::Slow),
            15u8 => Some(BaseStat::Root),
            16u8 => Some(BaseStat::Fear),
            17u8 => Some(BaseStat::Charm),
            18u8 => Some(BaseStat::Taunt),
            19u8 => Some(BaseStat::Knockback),
            20u8 => Some(BaseStat::Projectile),
            _ => None,
        }
    }

    /// The display label of the variant.
    pub open spec fn spec_label(self) -> Seq<char> {
        match self {
            BaseStat::NoStat => "(BaseStat) None"@,
            BaseStat::Health => "Health"@,
            BaseStat::Mana => "Mana"@,
            BaseStat::Stamina => "Stamina"@,
            BaseStat::Attack => "Attack"@,
            BaseStat::Damage => "Damage"@,
            BaseStat::Defense => "Defense"@,
            BaseStat::Speed => "Speed"@,
            BaseStat::CriticalStrike => "CriticalStrike"@,
            BaseStat::Armor => "Armor"@,
            BaseStat::Evasion => "Evasion"@,
            BaseStat::Accuracy => "Accuracy"@,
            BaseStat::Stun => "Stun"@,
            BaseStat::Silence => "Silence"@,
            BaseStat::Slow => "Slow"@,
            BaseStat::Root => "Root"@,
            BaseStat::Fear => "Fear"@,
            BaseStat::Charm => "Charm"@,
            BaseStat::Taunt => "Taunt"@,
            BaseStat::Knockback => "Knockback"@,
            BaseStat::Projectile => "Projectile"@,
        }
    }

    /// The display label of the variant; the sentinel is qualified so it can
    /// be told apart from the sentinels of the other enums.
    pub fn label(&self) -> (r: String)
        ensures
            r@ == self.spec_label(),
    {
        match self {
            BaseStat::NoStat => String::from_str("(BaseStat) None"),
            BaseStat::Health => String::from_str("Health"),
            BaseStat::Mana => String::from_str("Mana"),
            BaseStat::Stamina => String::from_str("Stamina"),
            BaseStat::Attack => String::from_str("Attack"),
            BaseStat::Damage => String::from_str("Damage"),
            BaseStat::Defense => String::from_str("Defense"),
            BaseStat::Speed => String::from_str("Speed"),
            BaseStat::CriticalStrike => String::from_str("CriticalStrike"),
            BaseStat::Armor => String::from_str("Armor"),
            BaseStat::Evasion => String::from_str("Evasion"),
            BaseStat::Accuracy => String::from_str("Accuracy"),
            BaseStat::Stun => String::from_str("Stun"),
            BaseStat::Silence => String::from_str("Silence"),
            BaseStat::Slow => String::from_str("Slow"),
            BaseStat::Root => String::from_str("Root"),
            BaseStat::Fear => String::from_str("Fear"),
            BaseStat::Charm => String::from_str("Charm"),
            BaseStat::Taunt => String::from_str("Taunt"),
            BaseStat::Knockback => String::from_str("Knockback"),
            BaseStat::Projectile => String::from_str("Projectile"),
        }
    }
}

} // verus!
