//! The composite `Stat` tag.
//!
//! A stat is a single descriptive value that measures some attribute for an
//! entity. A simple stat is a bare base stat; a complex stat qualifies a
//! base stat with a damage/type category and a stat modifier. The enum layer
//! is a flexible tagging vocabulary, not a validated grammar: no pairing of
//! category and modifier is ruled out here.

use vstd::prelude::*;

use crate::enums::base_stat_enum::BaseStat;
use crate::enums::stat_modifier_enum::StatModifier;
use crate::enums::type_category_enum::TypeCategory;

verus! {

/// The possible stats that an entity can have. `NoStat` is the default
/// empty value.
#[derive(Clone, Copy, PartialEq, Eq, Structural, Hash, Debug, Default)]
pub enum Stat {
    /// No stat; the default empty value.
    #[default]
    NoStat,
    /// A simple stat with no additional properties, such as health or mana.
    Simple(BaseStat),
    /// A complex stat qualified by a damage/type category and a modifier,
    /// such as damage resistance or damage amplification.
    Complex(BaseStat, TypeCategory, StatModifier),
}

impl Stat {
    /// The structural encoding of the stat: a variant tag byte followed by
    /// the stable codes of the payload, field for field.
    pub open spec fn spec_encode(self) -> Seq<u8> {
        match self {
            Stat::NoStat => seq![0u8],
            Stat::Simple(base) => seq![1u8, base.spec_code()],
            Stat::Complex(base, category, modifier) => seq![
                2u8,
                base.spec_code(),
                category.spec_code(),
                modifier.spec_code(),
            ],
        }
    }

    /// Encode the stat structurally: a variant tag byte followed by the
    /// stable codes of its fields.
    pub fn encode(&self) -> (r: Vec<u8>)
        ensures
            r@ == self.spec_encode(),
    {
        let mut bytes: Vec<u8> = Vec::new();
        match self {
            Stat::NoStat => {
                bytes.push(0);
            },
            Stat::Simple(base) => {
                bytes.push(1);
                bytes.push(base.code());
            },
            Stat::Complex(base, category, modifier) => {
                bytes.push(2);
                bytes.push(base.code());
                bytes.push(category.code());
                bytes.push(modifier.code());
            },
        }
        proof {
            assert(bytes@ =~= self.spec_encode());
        }
        bytes
    }

    /// Decode a structural encoding back into a stat.
    ///
    /// Returns the unique stat whose encoding is `bytes`, or `None` when
    /// `bytes` encodes no stat; decoding an encoded stat therefore yields
    /// the original.
    pub fn decode(bytes: &[u8]) -> (r: Option<Stat>)
        ensures
            (r matches Some(s) ==> s.spec_encode() == bytes@),
            forall|s: Stat| s.spec_encode() == bytes@ ==> r == Some(s),
    {
        let n = bytes.len();
        if n == 1 && bytes[0] == 0 {
            proof {
                assert(Stat::NoStat.spec_encode() =~= bytes@);
            }
            Some(Stat::NoStat)
        } else if n == 2 && bytes[0] == 1 {
            match BaseStat::from_code(bytes[1]) {
                Some(base) => {
                    proof {
                        assert(Stat::Simple(base).spec_encode() =~= bytes@);
                    }
                    Some(Stat::Simple(base))
                },
                Option::None => Option::None,
            }
        } else if n == 4 && bytes[0] == 2 {
            match (
                BaseStat::from_code(bytes[1]),
                TypeCategory::from_code(bytes[2]),
                StatModifier::from_code(bytes[3]),
            ) {
                (Some(base), Some(category), Some(modifier)) => {
                    proof {
                        assert(Stat::Complex(base, category, modifier).spec_encode()
                            =~= bytes@);
                    }
                    Some(Stat::Complex(base, category, modifier))
                },
                _ => Option::None,
            }
        } else {
            Option::None
        }
    }
}

/// The structural encoding of a stat round-trips: decoding the encoding of
/// any stat yields that stat back. This follows from `decode`'s contract,
/// which pins `decode(b)` to `Some(s)` for every stat `s` whose encoding is
/// `b`, and from the encoding being injective.
pub proof fn lemma_stat_encoding_injective(s1: Stat, s2: Stat)
    requires
        s1.spec_encode() == s2.spec_encode(),
    ensures
        s1 == s2,
{
    assert(s1.spec_encode().len() == s2.spec_encode().len());
    match (s1, s2) {
        (Stat::Simple(a), Stat::Simple(b)) => {
            assert(s1.spec_encode()[1] == s2.spec_encode()[1]);
        },
        (Stat::Complex(a, c, m), Stat::Complex(b, d, n)) => {
            assert(s1.spec_encode()[1] == s2.spec_encode()[1]);
            assert(s1.spec_encode()[2] == s2.spec_encode()[2]);
            assert(s1.spec_encode()[3] == s2.spec_encode()[3]);
        },
        _ => {
            assert(s1.spec_encode()[0] == s2.spec_encode()[0]);
        },
    }
}

} // verus!
