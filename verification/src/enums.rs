//! The closed stat vocabulary: base stats, damage/type categories, stat
//! modifiers, skills, and the composite `Stat` tag.
//!
//! The enums are pure tags with no cross-validation; each carries a stable
//! numeric code so that values round-trip through a structural encoding
//! without depending on declaration order.

pub mod base_stat_enum;
pub mod skill_enum;
pub mod stat_enum;
pub mod stat_modifier_enum;
pub mod type_category_enum;

pub use base_stat_enum::BaseStat;
pub use skill_enum::Skill;
pub use stat_enum::Stat;
pub use stat_modifier_enum::StatModifier;
pub use type_category_enum::TypeCategory;
