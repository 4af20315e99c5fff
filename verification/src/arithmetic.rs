//! The arithmetic operator surface of `IntegerAttribute`.
//!
//! Every operation clamps its result into `[min, max]` and so preserves the
//! attribute invariant. Overflowing additions saturate to `max`, overflowing
//! subtractions to `min`; division and remainder by zero are no-ops. Each
//! operation comes as a pure form returning a fresh attribute and as an
//! in-place form mutating the receiver.

use vstd::prelude::*;

use crate::integer_attribute::{clamp_i32, spec_clamp, IntegerAttribute};

verus! {

/// Rust's truncating division (the quotient is rounded towards zero),
/// defined for `d != 0`.
pub open spec fn div_trunc(x: int, d: int) -> int {
    if x == 0 {
        0
    } else if x > 0 && d > 0 {
        x / d
    } else if x < 0 && d < 0 {
        (x * -1) / (d * -1)
    } else if x < 0 {
        ((x * -1) / d) * -1
    } else {
        (x / (d * -1)) * -1
    }
}

/// Rust's truncating remainder (it takes the sign of the dividend),
/// defined for `d != 0`.
pub open spec fn rem_trunc(x: int, d: int) -> int {
    if x == 0 {
        0
    } else if x > 0 && d > 0 {
        x % d
    } else if x < 0 && d < 0 {
        ((x * -1) % (d * -1)) * -1
    } else if x < 0 {
        ((x * -1) % d) * -1
    } else {
        x % (d * -1)
    }
}

impl IntegerAttribute {
    /// The attribute after adding `rhs` to the current value: an overflowing
    /// sum saturates to `max`, and the result is clamped into the bounds.
    pub open spec fn spec_add(self, rhs: i32) -> Self {
        let sum = self.current + rhs;
        let sat = if i32::MIN <= sum <= i32::MAX {
            sum
        } else {
            self.max as int
        };
        IntegerAttribute {
            current: spec_clamp(sat, self.min as int, self.max as int) as i32,
            ..self
        }
    }

    /// The attribute after subtracting `rhs` from the current value: an
    /// overflowing difference saturates to `min`, and the result is clamped.
    pub open spec fn spec_subtract(self, rhs: i32) -> Self {
        let diff = self.current - rhs;
        let sat = if i32::MIN <= diff <= i32::MAX {
            diff
        } else {
            self.min as int
        };
        IntegerAttribute {
            current: spec_clamp(sat, self.min as int, self.max as int) as i32,
            ..self
        }
    }

    /// The attribute after multiplying the current value by `rhs`; the exact
    /// product is clamped into the bounds, so an overflowing product lands on
    /// the bound nearest to it.
    pub open spec fn spec_multiply(self, rhs: i32) -> Self {
        IntegerAttribute {
            current: spec_clamp(
                self.current * rhs,
                self.min as int,
                self.max as int,
            ) as i32,
            ..self
        }
    }

    /// The attribute after dividing the current value by `rhs`: unchanged
    /// when `rhs == 0`, otherwise the truncating quotient clamped into the
    /// bounds.
    pub open spec fn spec_divide(self, rhs: i32) -> Self {
        if rhs == 0 {
            self
        } else {
            IntegerAttribute {
                current: spec_clamp(
                    div_trunc(self.current as int, rhs as int),
                    self.min as int,
                    self.max as int,
                ) as i32,
                ..self
            }
        }
    }

    /// The attribute after taking the current value's remainder by `rhs`:
    /// unchanged when `rhs == 0`, otherwise the truncating remainder clamped
    /// into the bounds.
    pub open spec fn spec_remainder(self, rhs: i32) -> Self {
        if rhs == 0 {
            self
        } else {
            IntegerAttribute {
                current: spec_clamp(
                    rem_trunc(self.current as int, rhs as int),
                    self.min as int,
                    self.max as int,
                ) as i32,
                ..self
            }
        }
    }

    /// The attribute after negating the current value, clamped into the
    /// bounds; when 0 is outside the bounds this pins the value to a bound
    /// rather than truly negating it.
    pub open spec fn spec_negate(self) -> Self {
        IntegerAttribute {
            current: spec_clamp(
                -(self.current as int),
                self.min as int,
                self.max as int,
            ) as i32,
            ..self
        }
    }

    /// Add `rhs` to the current value; overflow saturates to `max` and the
    /// result is clamped between `min` and `max`.
    pub fn add(self, rhs: i32) -> (r: Self)
        requires
            self.wf(),
        ensures
            r == self.spec_add(rhs),
            r.wf(),
    {
        Self {
            min: self.min,
            max: self.max,
            current: clamp_i32(
                self.current.checked_add(rhs).unwrap_or(self.max),
                self.min,
                self.max,
            ),
        }
    }

    /// Subtract `rhs` from the current value; overflow saturates to `min`
    /// and the result is clamped between `min` and `max`.
    pub fn subtract(self, rhs: i32) -> (r: Self)
        requires
            self.wf(),
        ensures
            r == self.spec_subtract(rhs),
            r.wf(),
    {
        Self {
            min: self.min,
            max: self.max,
            current: clamp_i32(
                self.current.checked_sub(rhs).unwrap_or(self.min),
                self.min,
                self.max,
            ),
        }
    }

    /// Multiply the current value by `rhs` and clamp the product between
    /// `min` and `max`; an overflowing product lands on the nearest bound.
    pub fn multiply(self, rhs: i32) -> (r: Self)
        requires
            self.wf(),
        ensures
            r == self.spec_multiply(rhs),
            r.wf(),
    {
        let fallback = if (self.current < 0) == (rhs < 0) {
            self.max
        } else {
            self.min
        };
        proof {
            let p = self.current as int * rhs as int;
            if self.current >= 0 && rhs >= 0 {
                assert(p >= 0) by (nonlinear_arith)
                    requires self.current >= 0 && rhs >= 0, p == self.current as int * rhs as int;
            }
            if self.current < 0 && rhs < 0 {
                assert(p > 0) by (nonlinear_arith)
                    requires self.current < 0 && rhs < 0, p == self.current as int * rhs as int;
            }
            if self.current < 0 && rhs >= 0 {
                assert(p <= 0) by (nonlinear_arith)
                    requires self.current < 0 && rhs >= 0, p == self.current as int * rhs as int;
            }
            if self.current >= 0 && rhs < 0 {
                assert(p <= 0) by (nonlinear_arith)
                    requires self.current >= 0 && rhs < 0, p == self.current as int * rhs as int;
            }
        }
        Self {
            min: self.min,
            max: self.max,
            current: clamp_i32(
                self.current.checked_mul(rhs).unwrap_or(fallback),
                self.min,
                self.max,
            ),
        }
    }

    /// Divide the current value by `rhs` and clamp the quotient between
    /// `min` and `max`. Dividing by zero is a no-op: the attribute is
    /// returned unchanged.
    pub fn divide(self, rhs: i32) -> (r: Self)
        requires
            self.wf(),
        ensures
            r == self.spec_divide(rhs),
            r.wf(),
    {
        if rhs == 0 {
            return self;
        }
        Self {
            min: self.min,
            max: self.max,
            current: clamp_i32(
                self.current.checked_div(rhs).unwrap_or(self.max),
                self.min,
                self.max,
            ),
        }
    }

    /// Replace the current value by its remainder under `rhs`, clamped
    /// between `min` and `max`. A zero `rhs` is a no-op: the attribute is
    /// returned unchanged.
    pub fn remainder(self, rhs: i32) -> (r: Self)
        requires
            self.wf(),
        ensures
            r == self.spec_remainder(rhs),
            r.wf(),
    {
        if rhs == 0 {
            return self;
        }
        Self {
            min: self.min,
            max: self.max,
            current: clamp_i32(
                self.current.checked_rem(rhs).unwrap_or(0),
                self.min,
                self.max,
            ),
        }
    }

    /// Negate the current value and clamp it between `min` and `max`; when 0
    /// lies outside the bounds this pins to a bound instead of negating.
    pub fn negate(self) -> (r: Self)
        requires
            self.wf(),
        ensures
            r == self.spec_negate(),
            r.wf(),
    {
        let c = if self.current == i32::MIN {
            self.max
        } else {
            clamp_i32(-self.current, self.min, self.max)
        };
        Self { min: self.min, max: self.max, current: c }
    }

    /// Add `value` to the current value in place; overflow saturates to
    /// `max` and the result is clamped between `min` and `max`.
    pub fn add_to_current_value(&mut self, value: i32)
        requires
            old(self).wf(),
        ensures
            *final(self) == old(self).spec_add(value),
            final(self).wf(),
    {
        let s = *self;
        *self = s.add(value);
    }

    /// Subtract `value` from the current value in place; overflow saturates
    /// to `min` and the result is clamped between `min` and `max`.
    pub fn subtract_from_current_value(&mut self, value: i32)
        requires
            old(self).wf(),
        ensures
            *final(self) == old(self).spec_subtract(value),
            final(self).wf(),
    {
        let s = *self;
        *self = s.subtract(value);
    }

    /// Multiply the current value in place and clamp it between `min` and
    /// `max`.
    pub fn multiply_current_value(&mut self, value: i32)
        requires
            old(self).wf(),
        ensures
            *final(self) == old(self).spec_multiply(value),
            final(self).wf(),
    {
        let s = *self;
        *self = s.multiply(value);
    }

    /// Divide the current value in place and clamp it between `min` and
    /// `max`; dividing by zero leaves the attribute unchanged.
    pub fn divide_current_value(&mut self, value: i32)
        requires
            old(self).wf(),
        ensures
            *final(self) == old(self).spec_divide(value),
            final(self).wf(),
    {
        let s = *self;
        *self = s.divide(value);
    }

    /// Replace the current value by its remainder under `value`, in place;
    /// a zero `value` leaves the attribute unchanged.
    pub fn remainder_current_value(&mut self, value: i32)
        requires
            old(self).wf(),
        ensures
            *final(self) == old(self).spec_remainder(value),
            final(self).wf(),
    {
        let s = *self;
        *self = s.remainder(value);
    }

    /// Negate the current value in place, clamped between `min` and `max`.
    pub fn negate_current_value(&mut self)
        requires
            old(self).wf(),
        ensures
            *final(self) == old(self).spec_negate(),
            final(self).wf(),
    {
        let s = *self;
        *self = s.negate();
    }
}

impl IntegerAttribute {
    /// The attribute after adding an unsigned operand: an operand beyond the
    /// signed range saturates straight to `max`, otherwise this is `spec_add`.
    pub open spec fn spec_add_unsigned(self, rhs: u32) -> Self {
        if rhs <= i32::MAX {
            self.spec_add(rhs as i32)
        } else {
            IntegerAttribute {
                current: spec_clamp(
                    self.max as int,
                    self.min as int,
                    self.max as int,
                ) as i32,
                ..self
            }
        }
    }

    /// The attribute after subtracting an unsigned operand: an operand
    /// beyond the signed range behaves as subtracting the signed maximum.
    pub open spec fn spec_subtract_unsigned(self, rhs: u32) -> Self {
        if rhs <= i32::MAX {
            self.spec_subtract(rhs as i32)
        } else {
            self.spec_subtract(i32::MAX)
        }
    }

    /// The attribute after multiplying by an unsigned operand: an operand
    /// beyond the signed range yields `max`, `min` or an unchanged value
    /// depending on the sign of the current value.
    pub open spec fn spec_multiply_unsigned(self, rhs: u32) -> Self {
        if rhs <= i32::MAX {
            self.spec_multiply(rhs as i32)
        } else if self.current > 0 {
            IntegerAttribute {
                current: spec_clamp(
                    self.max as int,
                    self.min as int,
                    self.max as int,
                ) as i32,
                ..self
            }
        } else if self.current < 0 {
            IntegerAttribute {
                current: spec_clamp(
                    self.min as int,
                    self.min as int,
                    self.max as int,
                ) as i32,
                ..self
            }
        } else {
            self
        }
    }

    /// The attribute after dividing by an unsigned operand: a zero or
    /// beyond-signed-range divisor yields the clamped value of zero.
    pub open spec fn spec_divide_unsigned(self, rhs: u32) -> Self {
        if 0 < rhs <= i32::MAX {
            self.spec_divide(rhs as i32)
        } else {
            IntegerAttribute {
                current: spec_clamp(0, self.min as int, self.max as int) as i32,
                ..self
            }
        }
    }

    /// Add an unsigned operand; one beyond the signed range saturates the
    /// current value straight to `max`.
    pub fn add_unsigned(self, rhs: u32) -> (r: Self)
        requires
            self.wf(),
        ensures
            r == self.spec_add_unsigned(rhs),
            r.wf(),
    {
        if rhs <= i32::MAX as u32 {
            self.add(rhs as i32)
        } else {
            Self { min: self.min, max: self.max, current: self.max }
        }
    }

    /// Subtract an unsigned operand; one beyond the signed range behaves as
    /// subtracting the signed maximum.
    pub fn subtract_unsigned(self, rhs: u32) -> (r: Self)
        requires
            self.wf(),
        ensures
            r == self.spec_subtract_unsigned(rhs),
            r.wf(),
    {
        if rhs <= i32::MAX as u32 {
            self.subtract(rhs as i32)
        } else {
            self.subtract(i32::MAX)
        }
    }

    /// Multiply by an unsigned operand; one beyond the signed range yields
    /// `max`, `min` or an unchanged value depending on the current sign.
    pub fn multiply_unsigned(self, rhs: u32) -> (r: Self)
        requires
            self.wf(),
        ensures
            r == self.spec_multiply_unsigned(rhs),
            r.wf(),
    {
        if rhs <= i32::MAX as u32 {
            self.multiply(rhs as i32)
        } else if self.current > 0 {
            Self { min: self.min, max: self.max, current: self.max }
        } else if self.current < 0 {
            Self { min: self.min, max: self.max, current: self.min }
        } else {
            self
        }
    }

    /// Divide by an unsigned operand; a zero or beyond-signed-range divisor
    /// yields the clamped value of zero.
    pub fn divide_unsigned(self, rhs: u32) -> (r: Self)
        requires
            self.wf(),
        ensures
            r == self.spec_divide_unsigned(rhs),
            r.wf(),
    {
        if rhs != 0 && rhs <= i32::MAX as u32 {
            self.divide(rhs as i32)
        } else {
            Self {
                min: self.min,
                max: self.max,
                current: clamp_i32(0, self.min, self.max),
            }
        }
    }
}

/// Saturation at the top: adding a value whose exact sum overflows the
/// integer range leaves the current value at `max`.
pub proof fn lemma_add_saturates_to_max(a: IntegerAttribute, v: i32)
    requires
        a.wf(),
        a.current + v > i32::MAX,
    ensures
        a.spec_add(v).current == a.max,
{
}

/// Saturation at the bottom: subtracting a value whose exact difference
/// underflows the integer range leaves the current value at `min`.
pub proof fn lemma_subtract_saturates_to_min(a: IntegerAttribute, v: i32)
    requires
        a.wf(),
        a.current - v < i32::MIN,
    ensures
        a.spec_subtract(v).current == a.min,
{
}

/// The zero-divisor guard: dividing or taking the remainder by zero leaves
/// the attribute unchanged.
pub proof fn lemma_zero_divisor_is_noop(a: IntegerAttribute)
    requires
        a.wf(),
    ensures
        a.spec_divide(0) == a,
        a.spec_remainder(0) == a,
{
}

} // verus!
