//! Skills which could be used to level up a character.
//!
//! These are intended to be mapped to stats that increase a character's
//! abilities, or to unlock new abilities. Each is derived from a Latin or
//! Greek root word; magic skills carry the suffix "mancy".

use vstd::prelude::*;

verus! {

/// Skills which could be used to level up a character.
#[derive(Clone, Copy, PartialEq, Eq, Structural, Hash, Debug)]
pub enum Skill {
    /// The school of fire magic.
    Pyromancy,
    /// The school of lightning magic.
    Fulgomancy,
    /// The school of water magic.
    Hydromancy,
    /// The school of earth magic.
    Geomancy,
    /// The school of air magic.
    Aeromancy,
    /// The school of ice magic.
    Cryomancy,
    /// The school of force magic.
    Trudomancy,
    /// The school of light magic.
    Photomancy,
    /// The school of dark magic.
    Umbramancy,
    /// The school of arcane magic.
    Arcanomancy,
    /// The school of life magic.
    Vitomancy,
    /// The school of death magic.
    Mortomancy,
    /// The school of enhancement magic.
    Ampiliomancy,
    /// The school of reduction magic.
    Diminiomancy,
    /// The school of summoning magic.
    Citomancy,
    /// The school of necromancy.
    Necromancy,
    /// The school of polymorph magic.
    Mutatiomancy,
    /// The school of time magic.
    Chronomancy,
    /// The school of space magic.
    Spatiomancy,
    /// The school of gravity magic.
    Gravitamancy,
    /// The school of illusion magic.
    Phantasmamancy,
    /// The school of curse magic.
    Malamancy,
    /// The school of blessing magic.
    Beneficamancy,
    /// The school of mental magic.
    Cognimancy,
    /// The school of healing magic.
    Medicamancy,
}

impl Skill {
    /// The stable numeric code of the variant, used by the structural
    /// encoding; it does not change when variants are reordered.
    pub open spec fn spec_code(self) -> u8 {
        match self {
            Skill::Pyromancy => 0,
            Skill::Fulgomancy => 1,
            Skill::Hydromancy => 2,
            Skill::Geomancy => 3,
            Skill::Aeromancy => 4,
            Skill::Cryomancy => 5,
            Skill::Trudomancy => 6,
            Skill::Photomancy => 7,
            Skill::Umbramancy => 8,
            Skill::Arcanomancy => 9,
            Skill::Vitomancy => 10,
            Skill::Mortomancy => 11,
            Skill::Ampiliomancy => 12,
            Skill::Diminiomancy => 13,
            Skill::Citomancy => 14,
            Skill::Necromancy => 15,
            Skill::Mutatiomancy => 16,
            Skill::Chronomancy => 17,
            Skill::Spatiomancy => 18,
            Skill::Gravitamancy => 19,
            Skill::Phantasmamancy => 20,
            Skill::Malamancy => 21,
            Skill::Beneficamancy => 22,
            Skill::Cognimancy => 23,
            Skill::Medicamancy => 24,
        }
    }

    /// Encode the variant as its stable numeric code.
    pub fn code(&self) -> (r: u8)
        ensures
            r == self.spec_code(),
    {
        match self {
            Skill::Pyromancy => 0,
            Skill::Fulgomancy => 1,
            Skill::Hydromancy => 2,
            Skill::Geomancy => 3,
            Skill::Aeromancy => 4,
            Skill::Cryomancy => 5,
            Skill::Trudomancy => 6,
            Skill::Photomancy => 7,
            Skill::Umbramancy => 8,
            Skill::Arcanomancy => 9,
            Skill::Vitomancy => 10,
            Skill::Mortomancy => 11,
            Skill::Ampiliomancy => 12,
            Skill::Diminiomancy => 13,
            Skill::Citomancy => 14,
            Skill::Necromancy => 15,
            Skill::Mutatiomancy => 16,
            Skill::Chronomancy => 17,
            Skill::Spatiomancy => 18,
            Skill::Gravitamancy => 19,
            Skill::Phantasmamancy => 20,
            Skill::Malamancy => 21,
            Skill::Beneficamancy => 22,
            Skill::Cognimancy => 23,
            Skill::Medicamancy => 24,
        }
    }

    /// Decode a numeric code back into the variant that carries it.
    ///
    /// Returns the unique variant whose code is `code`, or `None` when no
    /// variant carries it.
    pub fn from_code(code: u8) -> (r: Option<Skill>)
        ensures
            forall|s: Skill| r == Some(s) <==> s.spec_code() == code,
    {
        match code {
            0u8 => Some(Skill::Pyromancy),
            1u8 => Some(Skill::Fulgomancy),
            2u8 => Some(Skill::Hydromancy),
            3u8 => Some(Skill::Geomancy),
            4u8 => Some(Skill::Aeromancy),
            5u8 => Some(Skill::Cryomancy),
            6u8 => Some(Skill::Trudomancy),
            7u8 => Some(Skill::Photomancy),
            8u8 => Some(Skill::Umbramancy),
            9u8 => Some(Skill::Arcanomancy),
            10u8 => Some(Skill::Vitomancy),
            11u8 => Some(Skill::Mortomancy),
            12u8 => Some(Skill::Ampiliomancy),
            13u8 => Some(Skill::Diminiomancy),
            14u8 => Some(Skill::Citomancy),
            15u8 => Some(Skill::Necromancy),
            16u8 => Some(Skill::Mutatiomancy),
            17u8 => Some(Skill::Chronomancy),
            18u8 => Some(Skill::Spatiomancy),
            19u8 => Some(Skill::Gravitamancy),
            20u8 => Some(Skill::Phantasmamancy),
            21u8 => Some(Skill::Malamancy),
            22u8 => Some(Skill::Beneficamancy),
            23u8 => Some(Skill::Cognimancy),
            24u8 => Some(Skill::Medicamancy),
            _ => None,
        }
    }
}

} // verus!
