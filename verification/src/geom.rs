//! Fixed-point lengths and font sizes.
//!
//! A `Length` has an absolute part and a part measured in multiples of the
//! current font size; both are bounded so that resolving a length against a
//! font size stays within `i64`.

use vstd::prelude::*;

verus! {

/// Bound on the magnitude of length components and text sizes, chosen so
/// that `abs + em * size` never overflows `i64`.
pub const LEN_LIMIT: i64 = 16777216;

/// A length in fixed-point units: an absolute part plus a part measured in
/// multiples of the current font size.
#[derive(Clone, Copy, Debug)]
pub struct Length {
    pub abs: i64,
    pub em: i64,
}

/// A font-size value, measured like `Length`.
#[derive(Clone, Copy, Debug)]
pub struct TextSize(pub Length);

/// A value that is either left automatic (derived by the consumer) or
/// explicitly given.
#[derive(Clone, Copy, Debug)]
pub enum Smart<T> {
    Auto,
    Custom(T),
}

impl<T> Smart<T> {
    /// The explicitly given value, if any.
    pub open spec fn spec_custom(self) -> Option<T> {
        match self {
            Smart::Auto => None,
            Smart::Custom(v) => Some(v),
        }
    }

    /// Returns the explicitly given value, if any.
    pub fn custom(self) -> (r: Option<T>)
        ensures
            r == self.spec_custom(),
    {
        match self {
            Smart::Auto => None,
            Smart::Custom(v) => Some(v),
        }
    }
}

/// A magnitude small enough for length arithmetic to stay within `i64`.
pub open spec fn bounded(x: int) -> bool {
    -(LEN_LIMIT as int) <= x <= LEN_LIMIT as int
}

pub open spec fn valid_length(l: Length) -> bool {
    bounded(l.abs as int) && bounded(l.em as int)
}

pub open spec fn valid_text_size(s: TextSize) -> bool {
    valid_length(s.0)
}

/// The absolute value of a length at the given font size.
pub open spec fn spec_at(l: Length, size: int) -> int {
    l.abs + l.em * size
}

proof fn lemma_mul_bound(a: int, b: int)
    requires
        -16777216 <= a <= 16777216,
        -16777216 <= b <= 16777216,
    ensures
        -281474976710656 <= a * b <= 281474976710656,
{
    assert(-281474976710656 <= a * b <= 281474976710656) by (nonlinear_arith)
        requires
            -16777216 <= a <= 16777216,
            -16777216 <= b <= 16777216,
    ;
}

/// A resolved length stays well within `i64`: its magnitude is at most
/// `LEN_LIMIT * LEN_LIMIT + LEN_LIMIT`.
pub proof fn lemma_spec_at_bounds(l: Length, size: int)
    requires
        valid_length(l),
        bounded(size),
    ensures
        -281474993487872 <= spec_at(l, size) <= 281474993487872,
{
    lemma_mul_bound(l.em as int, size);
}

impl Length {
    /// Converts to an absolute value using the given font size.
    pub fn at(self, size: i64) -> (r: i64)
        requires
            valid_length(self),
            bounded(size as int),
        ensures
            r as int == spec_at(self, size as int),
    {
        proof {
            lemma_mul_bound(self.em as int, size as int);
        }
        self.abs + self.em * size
    }
}

} // verus!
