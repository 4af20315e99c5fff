//! Traits exposed by the library.
//!
//! These declare the "human-readable" capability of the components. The
//! text mapping itself is an open interface: a presentation layer chooses
//! the wording per variant, so no type here implements these traits.

use vstd::prelude::*;

use crate::enums::Stat;

verus! {

/// A component with a human-readable name and description.
pub trait DescriptiveComponent {
    /// The human-readable name of the component.
    fn name(&self) -> String;

    /// The human-readable description of the component.
    fn description(&self) -> String;
}

/// An attribute with a human-readable value and percentage, on top of a
/// name and description.
pub trait DescriptiveAttribute: DescriptiveComponent {
    /// The human-readable value of the attribute.
    fn value(&self) -> String;

    /// The human-readable percentage of the attribute.
    fn percentage(&self) -> String;
}

/// A skill that can be matched to the stats it affects.
pub trait SkillToStats {
    /// The stats affected by the skill.
    fn affected_stat(&self) -> Vec<Stat>;
}

} // verus!
