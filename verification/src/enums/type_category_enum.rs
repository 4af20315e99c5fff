//! The damage/type categories that can qualify a stat.
//!
//! There are five general categories (`All`, `Physical`, `Magical`, `True`,
//! `Mental`) for broad buffs and debuffs, and a set of more specific
//! categories such as the elemental damage types and the magic schools.

use vstd::prelude::*;

verus! {

/// The possible damage/type categories. `All` is the default, since the
/// empty category is a special case.
#[derive(Clone, Copy, PartialEq, Eq, Structural, Hash, Debug, Default)]
pub enum TypeCategory {
    /// All types of damage; the default value.
    #[default]
    All,
    /// Damage dealt by physical means, such as a sword or a punch.
    Physical,
    /// Damage dealt by magical means, such as a spell or a potion.
    Magical,
    /// Damage dealt by an unblockable means, such as a curse.
    True,
    /// Damage directed towards the mind of an entity.
    Mental,
    /// The empty category: no interaction with any category. It is used for
    /// stats that are complex yet unaffected by a specific damage category.
    NoCategory,
    /// Elemental fire damage.
    Fire,
    /// Elemental lightning damage.
    Lightning,
    /// Elemental water damage.
    Water,
    /// Elemental earth damage.
    Earth,
    /// Elemental air damage.
    Air,
    /// Elemental ice damage.
    Ice,
    /// Force damage.
    Force,
    /// Light (radiant) damage.
    Light,
    /// Darkness damage.
    Dark,
    /// Arcane damage.
    Arcane,
    /// Death magic.
    Death,
    /// Life magic.
    Life,
    /// Poison damage.
    Poison,
    /// Enhancement magic.
    Enhancement,
    /// Reduction magic.
    Reduction,
    /// Summoning magic.
    Summoning,
    /// Necromancy magic.
    Necromancy,
    /// Polymorph magic.
    Polymorph,
    /// Time magic.
    Time,
    /// Space magic.
    Space,
    /// Gravity magic.
    Gravity,
    /// Illusion magic.
    Illusion,
    /// Enchantment magic.
    Enchantment,
    /// Curse magic.
    Curse,
    /// Blessings.
    Blessing,
    /// Healing magic.
    Healing,
}

impl TypeCategory {
    /// The stable numeric code of the variant, used by the structural
    /// encoding; it does not change when variants are reordered.
    pub open spec fn spec_code(self) -> u8 {
        match self {
            TypeCategory::All => 0,
            TypeCategory::Physical => 1,
            TypeCategory::Magical => 2,
            TypeCategory::True => 3,
            TypeCategory::Mental => 4,
            TypeCategory::NoCategory => 5,
            TypeCategory::Fire => 6,
            TypeCategory::Lightning => 7,
            TypeCategory::Water => 8,
            TypeCategory::Earth => 9,
            TypeCategory::Air => 10,
            TypeCategory::Ice => 11,
            TypeCategory::Force => 12,
            TypeCategory::Light => 13,
            TypeCategory::Dark => 14,
            TypeCategory::Arcane => 15,
            TypeCategory::Death => 16,
            TypeCategory::Life => 17,
            TypeCategory::Poison => 18,
            TypeCategory::Enhancement => 19,
            TypeCategory::Reduction => 20,
            TypeCategory::Summoning => 21,
            TypeCategory::Necromancy => 22,
            TypeCategory::Polymorph => 23,
            TypeCategory::Time => 24,
            TypeCategory::Space => 25,
            TypeCategory::Gravity => 26,
            TypeCategory::Illusion => 27,
            TypeCategory::Enchantment => 28,
            TypeCategory::Curse => 29,
            TypeCategory::Blessing => 30,
            TypeCategory::Healing => 31,
        }
    }

    /// Encode the variant as its stable numeric code.
    pub fn code(&self) -> (r: u8)
        ensures
            r == self.spec_code(),
    {
        match self {
            TypeCategory::All => 0,
            TypeCategory::Physical => 1,
            TypeCategory::Magical => 2,
            TypeCategory::True => 3,
            TypeCategory::Mental => 4,
            TypeCategory::NoCategory => 5,
            TypeCategory::Fire => 6,
            TypeCategory::Lightning => 7,
            TypeCategory::Water => 8,
            TypeCategory::Earth => 9,
            TypeCategory::Air => 10,
            TypeCategory::Ice => 11,
            TypeCategory::Force => 12,
            TypeCategory::Light => 13,
            TypeCategory::Dark => 14,
            TypeCategory::Arcane => 15,
            TypeCategory::Death => 16,
            TypeCategory::Life => 17,
            TypeCategory::Poison => 18,
            TypeCategory::Enhancement => 19,
            TypeCategory::Reduction => 20,
            TypeCategory::Summoning => 21,
            TypeCategory::Necromancy => 22,
            TypeCategory::Polymorph => 23,
            TypeCategory::Time => 24,
            TypeCategory::Space => 25,
            TypeCategory::Gravity => 26,
            TypeCategory::Illusion => 27,
            TypeCategory::Enchantment => 28,
            TypeCategory::Curse => 29,
            TypeCategory::Blessing => 30,
            TypeCategory::Healing => 31,
        }
    }

    /// Decode a numeric code back into the variant that carries it.
    ///
    /// Returns the unique variant whose code is `code`, or `None` when no
    /// variant carries it.
    pub fn from_code(code: u8) -> (r: Option<TypeCategory>)
        ensures
            forall|s: TypeCategory| r == Some(s) <==> s.spec_code() == code,
    {
        match code {
            0u8 => Some(TypeCategory::All),
            1u8 => Some(TypeCategory::Physical),
            2u8 => Some(TypeCategory::Magical),
            3u8 => Some(TypeCategory::True),
            4u8 => Some(TypeCategory::Mental),
            5u8 => Some(TypeCategory::NoCategory),
            6u8 => Some(TypeCategory::Fire),
            7u8 => Some(TypeCategory::Lightning),
            8u8 => Some(TypeCategory::Water),
            9u8 => Some(TypeCategory::Earth),
            10u8 => Some(TypeCategory::Air),
            11u8 => Some(TypeCategory::Ice),
            12u8 => Some(TypeCategory::Force),
            13u8 => Some(TypeCategory::Light),
            14u8 => Some(TypeCategory::Dark),
            15u8 => Some(TypeCategory::Arcane),
            16u8 => Some(TypeCategory::Death),
            17u8 => Some(TypeCategory::Life),
            18u8 => Some(TypeCategory::Poison),
            19u8 => Some(TypeCategory::Enhancement),
            20u8 => Some(TypeCategory::Reduction),
            21u8 => Some(TypeCategory::Summoning),
            22u8 => Some(TypeCategory::Necromancy),
            23u8 => Some(TypeCategory::Polymorph),
            24u8 => Some(TypeCategory::Time),
            25u8 => Some(TypeCategory::Space),
            26u8 => Some(TypeCategory::Gravity),
            27u8 => Some(TypeCategory::Illusion),
            28u8 => Some(TypeCategory::Enchantment),
            29u8 => Some(TypeCategory::Curse),
            30u8 => Some(TypeCategory::Blessing),
            31u8 => Some(TypeCategory::Healing),
            _ => None,
        }
    }

    /// The display label of the variant.
    pub open spec fn spec_label(self) -> Seq<char> {
        match self {
            TypeCategory::All => "(TypeCategory) All"@,
            TypeCategory::Physical => "Physical"@,
            TypeCategory::Magical => "Magical"@,
            TypeCategory::True => "True"@,
            TypeCategory::Mental => "Mental"@,
            TypeCategory::NoCategory => "None"@,
            TypeCategory::Fire => "Fire"@,
            TypeCategory::Lightning => "Lightning"@,
            TypeCategory::Water => "Water"@,
            TypeCategory::Earth => "Earth"@,
            TypeCategory::Air => "Air"@,
            TypeCategory::Ice => "Ice"@,
            TypeCategory::Force => "Force"@,
            TypeCategory::Light => "Light"@,
            TypeCategory::Dark => "Dark"@,
            TypeCategory::Arcane => "Arcane"@,
            TypeCategory::Death => "Death"@,
            TypeCategory::Life => "Life"@,
            TypeCategory::Poison => "Poison"@,
            TypeCategory::Enhancement => "Enhancement"@,
            TypeCategory::Reduction => "Reduction"@,
            TypeCategory::Summoning => "Summoning"@,
            TypeCategory::Necromancy => "Necromancy"@,
            TypeCategory::Polymorph => "Polymorph"@,
            TypeCategory::Time => "Time"@,
            TypeCategory::Space => "Space"@,
            TypeCategory::Gravity => "Gravity"@,
            TypeCategory::Illusion => "Illusion"@,
            TypeCategory::Enchantment => "Enchantment"@,
            TypeCategory::Curse => "Curse"@,
            TypeCategory::Blessing => "Blessing"@,
            TypeCategory::Healing => "Healing"@,
        }
    }

    /// The display label of the variant; the default is qualified so it can
    /// be told apart from the defaults of the other enums.
    pub fn label(&self) -> (r: String)
        ensures
            r@ == self.spec_label(),
    {
        match self {
            TypeCategory::All => String::from_str("(TypeCategory) All"),
            TypeCategory::Physical => String::from_str("Physical"),
            TypeCategory::Magical => String::from_str("Magical"),
            TypeCategory::True => String::from_str("True"),
            TypeCategory::Mental => String::from_str("Mental"),
            TypeCategory::NoCategory => String::from_str("None"),
            TypeCategory::Fire => String::from_str("Fire"),
            TypeCategory::Lightning => String::from_str("Lightning"),
            TypeCategory::Water => String::from_str("Water"),
            TypeCategory::Earth => String::from_str("Earth"),
            TypeCategory::Air => String::from_str("Air"),
            TypeCategory::Ice => String::from_str("Ice"),
            TypeCategory::Force => String::from_str("Force"),
            TypeCategory::Light => String::from_str("Light"),
            TypeCategory::Dark => String::from_str("Dark"),
            TypeCategory::Arcane => String::from_str("Arcane"),
            TypeCategory::Death => String::from_str("Death"),
            TypeCategory::Life => String::from_str("Life"),
            TypeCategory::Poison => String::from_str("Poison"),
            TypeCategory::Enhancement => String::from_str("Enhancement"),
            TypeCategory::Reduction => String::from_str("Reduction"),
            TypeCategory::Summoning => String::from_str("Summoning"),
            TypeCategory::Necromancy => String::from_str("Necromancy"),
            TypeCategory::Polymorph => String::from_str("Polymorph"),
            TypeCategory::Time => String::from_str("Time"),
            TypeCategory::Space => String::from_str("Space"),
            TypeCategory::Gravity => String::from_str("Gravity"),
            TypeCategory::Illusion => String::from_str("Illusion"),
            TypeCategory::Enchantment => String::from_str("Enchantment"),
            TypeCategory::Curse => String::from_str("Curse"),
            TypeCategory::Blessing => String::from_str("Blessing"),
            TypeCategory::Healing => String::from_str("Healing"),
        }
    }
}

} // verus!
