//! A clamped integer attribute: a current value held between an inclusive
//! minimum and maximum, re-clamped on every mutation.
//!
//! The most common use for `IntegerAttribute` is a character value such as
//! health, mana or stamina. Every constructor establishes, and every
//! operation preserves, the invariant `min <= current <= max`; arithmetic
//! saturates at the bounds instead of wrapping or failing.

use vstd::prelude::*;

use crate::errors::AttributeError;

verus! {

/// Clamp `v` into the inclusive range `[lo, hi]`.
pub open spec fn spec_clamp(v: int, lo: int, hi: int) -> int {
    if v < lo {
        lo
    } else if v > hi {
        hi
    } else {
        v
    }
}

/// Clamp `v` into the inclusive range `[lo, hi]`.
pub fn clamp_i32(v: i32, lo: i32, hi: i32) -> (r: i32)
    requires
        lo <= hi,
    ensures
        r == spec_clamp(v as int, lo as int, hi as int),
{
    if v < lo {
        lo
    } else if v > hi {
        hi
    } else {
        v
    }
}

/// An integer attribute that can represent things like health or mana.
///
/// The fields are public to keep the component a plain value; the invariant
/// `min <= current <= max` is guaranteed after every constructor and method,
/// but a caller that writes the fields directly is on its own, and should use
/// `set_min` / `set_max` / `set_value` instead.
///
/// Equality treats the attribute as its numeric value: two attributes are
/// equal when their current values are, whatever their bounds. The type
/// deliberately carries no hash, since a derived hash would read the bounds
/// too and disagree with that equality.
#[derive(Clone, Copy, Debug, Default)]
pub struct IntegerAttribute {
    /// The maximum value of the attribute.
    pub max: i32,
    /// The minimum value of the attribute. Usually 0, but can be negative.
    pub min: i32,
    /// The current value, clamped between `min` and `max`.
    pub current: i32,
}

impl IntegerAttribute {
    /// The invariant every operation preserves: the bounds are ordered and
    /// the current value lies between them.
    pub open spec fn wf(&self) -> bool {
        self.min <= self.current <= self.max
    }

    /// Create a new attribute with the given maximum.
    ///
    /// The minimum is 0 (clamped to the maximum if that is negative) and the
    /// current value is the maximum. Never fails.
    pub fn new(max: i32) -> (r: Self)
        ensures
            r.max == max,
            r.min == spec_clamp(0, i32::MIN as int, max as int),
            r.current == max,
            r.wf(),
    {
        Self { min: clamp_i32(0, i32::MIN, max), max, current: max }
    }

    /// Create a new attribute with the given values; the current value is
    /// clamped into `[min, max]`.
    ///
    /// # Errors
    ///
    /// Returns an error if the minimum is greater than the maximum.
    pub fn new_as_defined(min: i32, max: i32, current: i32) -> (r: Result<
        Self,
        AttributeError,
    >)
        ensures
            min > max ==> r == Err::<Self, _>(AttributeError::MinGreaterThanMax(min, max)),
            min <= max ==> (r matches Ok(a) && a.min == min && a.max == max && a.current
                == spec_clamp(current as int, min as int, max as int) && a.wf()),
    {
        if min > max {
            return Err(AttributeError::MinGreaterThanMax(min, max));
        }
        Ok(Self { min, max, current: clamp_i32(current, min, max) })
    }

    /// Wrapper for `new_as_defined`.
    ///
    /// # Errors
    ///
    /// Returns an error if the minimum is greater than the maximum.
    pub fn with_min_max_and_current(min: i32, max: i32, current: i32) -> (r: Result<
        Self,
        AttributeError,
    >)
        ensures
            min > max ==> r == Err::<Self, _>(AttributeError::MinGreaterThanMax(min, max)),
            min <= max ==> (r matches Ok(a) && a.min == min && a.max == max && a.current
                == spec_clamp(current as int, min as int, max as int) && a.wf()),
    {
        Self::new_as_defined(min, max, current)
    }

    /// Create a new attribute with the given bounds; the current value is
    /// the maximum.
    ///
    /// # Errors
    ///
    /// Returns an error if the minimum is greater than the maximum.
    pub fn with_min_and_max(min: i32, max: i32) -> (r: Result<Self, AttributeError>)
        ensures
            min > max ==> r == Err::<Self, _>(AttributeError::MinGreaterThanMax(min, max)),
            min <= max ==> r == Ok::<Self, AttributeError>(
                IntegerAttribute { min, max, current: max },
            ),
            min <= max ==> (r matches Ok(a) && a.wf()),
    {
        Self::new_as_defined(min, max, max)
    }

    /// The attribute with its current value replaced by `v`, clamped into
    /// the bounds. This is what `set_value` stores.
    pub open spec fn spec_with_value(self, v: i32) -> Self {
        IntegerAttribute {
            current: spec_clamp(v as int, self.min as int, self.max as int) as i32,
            ..self
        }
    }

    /// Set the current value; it is clamped between `min` and `max`.
    pub fn set_value(&mut self, current: i32)
        requires
            old(self).wf(),
        ensures
            *final(self) == old(self).spec_with_value(current),
            final(self).wf(),
    {
        self.current = clamp_i32(current, self.min, self.max);
    }

    /// Set the current value; it is clamped between `min` and `max`.
    ///
    /// Alias of `set_value`.
    pub fn set_current_value(&mut self, value: i32)
        requires
            old(self).wf(),
        ensures
            *final(self) == old(self).spec_with_value(value),
            final(self).wf(),
    {
        self.set_value(value);
    }

    /// Get the current value, clamped between `min` and `max` (defensive;
    /// under the invariant it is already in range).
    pub fn current_value(&self) -> (r: i32)
        requires
            self.wf(),
        ensures
            r == self.current,
    {
        clamp_i32(self.current, self.min, self.max)
    }

    /// Set the maximum value of the attribute, re-clamping the current value.
    ///
    /// # Errors
    ///
    /// Returns an error, and leaves the attribute unchanged, if the new
    /// maximum is less than the minimum.
    pub fn set_max(&mut self, value: i32) -> (r: Result<(), AttributeError>)
        requires
            old(self).wf(),
        ensures
            value < old(self).min ==> r == Err::<(), AttributeError>(
                AttributeError::MaxLessThanMin(value, old(self).min),
            ) && *final(self) == *old(self),
            value >= old(self).min ==> r == Ok::<(), AttributeError>(()) && final(self).min
                == old(self).min && final(self).max == value && final(self).current
                == spec_clamp(old(self).current as int, old(self).min as int, value as int),
            final(self).wf(),
    {
        if value < self.min {
            return Err(AttributeError::MaxLessThanMin(value, self.min));
        }
        self.max = value;
        self.current = clamp_i32(self.current, self.min, self.max);
        Ok(())
    }

    /// Set the minimum value of the attribute, re-clamping the current value.
    ///
    /// # Errors
    ///
    /// Returns an error, and leaves the attribute unchanged, if the new
    /// minimum is greater than the maximum.
    pub fn set_min(&mut self, value: i32) -> (r: Result<(), AttributeError>)
        requires
            old(self).wf(),
        ensures
            value > old(self).max ==> r == Err::<(), AttributeError>(
                AttributeError::MinGreaterThanMax(value, old(self).max),
            ) && *final(self) == *old(self),
            value <= old(self).max ==> r == Ok::<(), AttributeError>(()) && final(self).min
                == value && final(self).max == old(self).max && final(self).current
                == spec_clamp(old(self).current as int, value as int, old(self).max as int),
            final(self).wf(),
    {
        if value > self.max {
            return Err(AttributeError::MinGreaterThanMax(value, self.max));
        }
        self.min = value;
        self.current = clamp_i32(self.current, self.min, self.max);
        Ok(())
    }

    /// Replace both bounds at once, re-clamping the current value into the
    /// new range.
    ///
    /// # Errors
    ///
    /// Returns an error, and leaves the attribute unchanged, if the new
    /// minimum is greater than the new maximum.
    pub fn set_min_max(&mut self, min: i32, max: i32) -> (r: Result<(), AttributeError>)
        requires
            old(self).wf(),
        ensures
            min > max ==> r == Err::<(), AttributeError>(
                AttributeError::MinGreaterThanMax(min, max),
            ) && *final(self) == *old(self),
            min <= max ==> r == Ok::<(), AttributeError>(()) && final(self).min == min
                && final(self).max == max && final(self).current
                == spec_clamp(old(self).current as int, min as int, max as int),
            final(self).wf(),
    {
        if min > max {
            return Err(AttributeError::MinGreaterThanMax(min, max));
        }
        self.min = min;
        self.max = max;
        self.current = clamp_i32(self.current, min, max);
        Ok(())
    }

    /// Whether the attribute equals a raw numeric value; the comparison
    /// looks at the current value only.
    pub fn eq_value(&self, other: i32) -> (r: bool)
        ensures
            r == (self.current == other),
    {
        self.current == other
    }

    /// Convert the attribute to an unsigned integer.
    ///
    /// # Errors
    ///
    /// Returns an error if the current value is negative.
    pub fn try_into_u32(&self) -> (r: Result<u32, AttributeError>)
        ensures
            self.current >= 0 ==> r == Ok::<u32, AttributeError>(self.current as u32),
            self.current < 0 ==> (r matches Err(e) && e matches
                AttributeError::ConversionError(m) && m@
                == "Current value is negative when trying to convert to u32."@),
    {
        if self.current < 0 {
            Err(
                AttributeError::ConversionError(
                    String::from_str(
                        "Current value is negative when trying to convert to u32.",
                    ),
                ),
            )
        } else {
            Ok(self.current as u32)
        }
    }
}

/// Equality of attributes compares the current values only: the attribute
/// behaves like its numeric value, and the bounds play no part.
impl PartialEq for IntegerAttribute {
    fn eq(&self, other: &Self) -> (r: bool) {
        self.current == other.current
    }
}

impl vstd::std_specs::cmp::PartialEqSpecImpl for IntegerAttribute {
    open spec fn obeys_eq_spec() -> bool {
        true
    }

    open spec fn eq_spec(&self, other: &Self) -> bool {
        self.current == other.current
    }
}

impl Eq for IntegerAttribute {

}

/// Conversion of an `IntegerAttribute` to its current value.
impl From<IntegerAttribute> for i32 {
    fn from(attribute: IntegerAttribute) -> (r: i32)
        ensures
            r == attribute.current,
    {
        attribute.current
    }
}

impl vstd::std_specs::convert::FromSpecImpl<IntegerAttribute> for i32 {
    open spec fn obeys_from_spec() -> bool {
        true
    }

    open spec fn from_spec(v: IntegerAttribute) -> i32 {
        v.current
    }
}

/// Clamping a value into a range is idempotent: storing the same value twice
/// through `set_value` leaves the attribute exactly as storing it once does.
pub proof fn lemma_set_value_idempotent(a: IntegerAttribute, v: i32)
    requires
        a.wf(),
    ensures
        a.spec_with_value(v).spec_with_value(v) == a.spec_with_value(v),
{
}

} // verus!
