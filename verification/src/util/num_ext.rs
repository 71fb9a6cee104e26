use vstd::prelude::*;

verus! {

/// Inclusive range arithmetic that wraps around at the bounds.
pub trait RangedWrap: Sized {
    /// The inputs on which `circular_increment` computes without leaving the integer type.
    spec fn increment_defined(self, lower_bound: Self, upper_bound: Self) -> bool;

    /// The inputs on which `circular_decrement` computes without leaving the integer type.
    spec fn decrement_defined(self, lower_bound: Self, upper_bound: Self) -> bool;

    /// The value one step forward of `self`, wrapping to `lower_bound` after `upper_bound`.
    spec fn spec_circular_increment(self, lower_bound: Self, upper_bound: Self) -> Self;

    /// The value one step back from `self`, wrapping to `upper_bound` before `lower_bound`.
    spec fn spec_circular_decrement(self, lower_bound: Self, upper_bound: Self) -> Self;

    fn circular_increment(self, lower_bound: Self, upper_bound: Self) -> (r: Self)
        requires
            self.increment_defined(lower_bound, upper_bound),
        ensures
            r == self.spec_circular_increment(lower_bound, upper_bound),
    ;

    fn circular_decrement(self, lower_bound: Self, upper_bound: Self) -> (r: Self)
        requires
            self.decrement_defined(lower_bound, upper_bound),
        ensures
            r == self.spec_circular_decrement(lower_bound, upper_bound),
    ;
}

/// Remainder that truncates toward zero, as the `%` operator on machine integers does.
pub open spec fn trunc_rem(a: int, m: int) -> int {
    if a >= 0 {
        a % m
    } else {
        -((-a) % m)
    }
}

/// Size of the inclusive range `[lower, upper]`.
pub open spec fn range_size(lower: int, upper: int) -> int {
    upper - lower + 1
}

/// What `circular_increment` computes, over the integers.
pub open spec fn wrapped_increment(value: int, lower: int, upper: int) -> int {
    trunc_rem(value - lower + 1, range_size(lower, upper)) + lower
}

/// What `circular_decrement` computes, over the integers.
pub open spec fn wrapped_decrement(value: int, lower: int, upper: int) -> int {
    trunc_rem(value - lower + range_size(lower, upper) - 1, range_size(lower, upper)) + lower
}

pub open spec fn fits_usize(x: int) -> bool {
    0 <= x <= usize::MAX
}

pub open spec fn fits_isize(x: int) -> bool {
    isize::MIN <= x <= isize::MAX
}

impl RangedWrap for usize {
    open spec fn increment_defined(self, lower_bound: usize, upper_bound: usize) -> bool {
        let (v, lo, hi) = (self as int, lower_bound as int, upper_bound as int);
        &&& fits_usize(hi - lo)
        &&& fits_usize(range_size(lo, hi))
        &&& fits_usize(v - lo)
        &&& fits_usize(v - lo + 1)
    }

    open spec fn decrement_defined(self, lower_bound: usize, upper_bound: usize) -> bool {
        let (v, lo, hi) = (self as int, lower_bound as int, upper_bound as int);
        &&& fits_usize(hi - lo)
        &&& fits_usize(range_size(lo, hi))
        &&& fits_usize(v - lo)
        &&& fits_usize(v - lo + range_size(lo, hi))
    }

    open spec fn spec_circular_increment(self, lower_bound: usize, upper_bound: usize) -> usize {
        wrapped_increment(self as int, lower_bound as int, upper_bound as int) as usize
    }

    open spec fn spec_circular_decrement(self, lower_bound: usize, upper_bound: usize) -> usize {
        wrapped_decrement(self as int, lower_bound as int, upper_bound as int) as usize
    }

    fn circular_increment(self, lower_bound: usize, upper_bound: usize) -> (r: usize) {
        let range = upper_bound - lower_bound + 1;
        ((self - lower_bound + 1) % range) + lower_bound
    }

    fn circular_decrement(self, lower_bound: usize, upper_bound: usize) -> (r: usize) {
        let range = upper_bound - lower_bound + 1;
        ((self - lower_bound + range - 1) % range) + lower_bound
    }
}

impl RangedWrap for isize {
    open spec fn increment_defined(self, lower_bound: isize, upper_bound: isize) -> bool {
        let (v, lo, hi) = (self as int, lower_bound as int, upper_bound as int);
        &&& fits_isize(hi - lo)
        &&& fits_isize(range_size(lo, hi))
        &&& range_size(lo, hi) != 0
        &&& fits_isize(v - lo)
        &&& fits_isize(v - lo + 1)
        &&& fits_isize(wrapped_increment(v, lo, hi))
    }

    open spec fn decrement_defined(self, lower_bound: isize, upper_bound: isize) -> bool {
        let (v, lo, hi) = (self as int, lower_bound as int, upper_bound as int);
        &&& fits_isize(hi - lo)
        &&& fits_isize(range_size(lo, hi))
        &&& range_size(lo, hi) != 0
        &&& fits_isize(v - lo)
        &&& fits_isize(v - lo + range_size(lo, hi))
        &&& fits_isize(v - lo + range_size(lo, hi) - 1)
        &&& !(v - lo + range_size(lo, hi) - 1 == isize::MIN && range_size(lo, hi) == -1)
        &&& fits_isize(wrapped_decrement(v, lo, hi))
    }

    open spec fn spec_circular_increment(self, lower_bound: isize, upper_bound: isize) -> isize {
        wrapped_increment(self as int, lower_bound as int, upper_bound as int) as isize
    }

    open spec fn spec_circular_decrement(self, lower_bound: isize, upper_bound: isize) -> isize {
        wrapped_decrement(self as int, lower_bound as int, upper_bound as int) as isize
    }

    fn circular_increment(self, lower_bound: isize, upper_bound: isize) -> (r: isize) {
        let range = upper_bound - lower_bound + 1;
        ((self - lower_bound + 1) % range) + lower_bound
    }

    fn circular_decrement(self, lower_bound: isize, upper_bound: isize) -> (r: isize) {
        let range = upper_bound - lower_bound + 1;
        let shifted = self - lower_bound + range - 1;
        (shifted % range) + lower_bound
    }
}

/// Inside the range, a step forward moves to the next value, and from the upper bound it
/// wraps to the lower bound; a step back moves to the previous value, and from the lower
/// bound it wraps to the upper bound.
pub proof fn wrapped_steps_in_range(value: int, lower: int, upper: int)
    requires
        lower <= value <= upper,
    ensures
        wrapped_increment(value, lower, upper) == (if value == upper { lower } else { value + 1 }),
        wrapped_decrement(value, lower, upper) == (if value == lower { upper } else { value - 1 }),
{
    let m = range_size(lower, upper);
    let a = value - lower;
    assert(0 <= a < m);
    if value == upper {
        assert(a + 1 == m);
        vstd::arithmetic::div_mod::lemma_mod_self_0(m);
    } else {
        vstd::arithmetic::div_mod::lemma_small_mod((a + 1) as nat, m as nat);
    }
    if value == lower {
        vstd::arithmetic::div_mod::lemma_small_mod((m - 1) as nat, m as nat);
    } else {
        vstd::arithmetic::div_mod::lemma_mod_add_multiples_vanish(a - 1, m);
        vstd::arithmetic::div_mod::lemma_small_mod((a - 1) as nat, m as nat);
    }
}

/// For a `usize` counter inside `[lower, upper]`, a wrapped step keeps it inside the range,
/// and a step back undoes a step forward (and the other way round).
pub proof fn usize_wrap_round_trip(value: usize, lower: usize, upper: usize)
    requires
        lower <= value <= upper,
        2 * (upper - lower) + 1 <= usize::MAX,
    ensures
        value.increment_defined(lower, upper),
        value.decrement_defined(lower, upper),
        lower <= value.spec_circular_increment(lower, upper) <= upper,
        lower <= value.spec_circular_decrement(lower, upper) <= upper,
        value.spec_circular_increment(lower, upper).decrement_defined(lower, upper),
        value.spec_circular_decrement(lower, upper).increment_defined(lower, upper),
        value.spec_circular_increment(lower, upper).spec_circular_decrement(lower, upper) == value,
        value.spec_circular_decrement(lower, upper).spec_circular_increment(lower, upper) == value,
{
    wrapped_steps_in_range(value as int, lower as int, upper as int);
    let up = value.spec_circular_increment(lower, upper);
    let down = value.spec_circular_decrement(lower, upper);
    wrapped_steps_in_range(up as int, lower as int, upper as int);
    wrapped_steps_in_range(down as int, lower as int, upper as int);
}

/// For an `isize` counter inside `[lower, upper]`, a wrapped step keeps it inside the range,
/// and a step back undoes a step forward (and the other way round).
pub proof fn isize_wrap_round_trip(value: isize, lower: isize, upper: isize)
    requires
        lower <= value <= upper,
        2 * (upper - lower) + 1 <= isize::MAX,
    ensures
        value.increment_defined(lower, upper),
        value.decrement_defined(lower, upper),
        lower <= value.spec_circular_increment(lower, upper) <= upper,
        lower <= value.spec_circular_decrement(lower, upper) <= upper,
        value.spec_circular_increment(lower, upper).decrement_defined(lower, upper),
        value.spec_circular_decrement(lower, upper).increment_defined(lower, upper),
        value.spec_circular_increment(lower, upper).spec_circular_decrement(lower, upper) == value,
        value.spec_circular_decrement(lower, upper).spec_circular_increment(lower, upper) == value,
{
    wrapped_steps_in_range(value as int, lower as int, upper as int);
    let up = value.spec_circular_increment(lower, upper);
    let down = value.spec_circular_decrement(lower, upper);
    wrapped_steps_in_range(up as int, lower as int, upper as int);
    wrapped_steps_in_range(down as int, lower as int, upper as int);
}

} // verus!
