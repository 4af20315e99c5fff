//! Generic game-attribute components: clamped numeric values and the
//! closed stat vocabulary that tags them.

pub mod arithmetic;
pub mod codec;
pub mod enums;
pub mod errors;
pub mod integer_attribute;
pub mod text;
pub mod traits;

pub use enums::BaseStat;
pub use enums::Skill;
pub use enums::Stat;
pub use enums::StatModifier;
pub use enums::TypeCategory;
pub use errors::AttributeError;
pub use integer_attribute::IntegerAttribute;
