use vstd::prelude::*;

verus! {

/// `value` held between the bounds that are present: the lower bound is applied
/// first and the upper bound last, so the upper bound wins when the two cross.
pub open spec fn clamp_between(value: int, lower: Option<int>, upper: Option<int>) -> int {
    let raised = match lower {
        Some(lo) => if value < lo { lo } else { value },
        None => value,
    };
    match upper {
        Some(hi) => if raised > hi { hi } else { raised },
        None => raised,
    }
}

/// Bounds that do not cross: either one is missing or the lower one is at most the upper one.
pub open spec fn bounds_ordered(lower: Option<int>, upper: Option<int>) -> bool {
    match (lower, upper) {
        (Some(lo), Some(hi)) => lo <= hi,
        _ => true,
    }
}

/// A value that already lies within the bounds that are present.
pub open spec fn within_bounds(value: int, lower: Option<int>, upper: Option<int>) -> bool {
    &&& (lower matches Some(lo) ==> lo <= value)
    &&& (upper matches Some(hi) ==> value <= hi)
}

pub open spec fn opt_int_i32(b: Option<i32>) -> Option<int> {
    match b {
        Some(v) => Some(v as int),
        None => None,
    }
}

pub open spec fn opt_int_i64(b: Option<i64>) -> Option<int> {
    match b {
        Some(v) => Some(v as int),
        None => None,
    }
}

pub open spec fn opt_int_u32(b: Option<u32>) -> Option<int> {
    match b {
        Some(v) => Some(v as int),
        None => None,
    }
}

pub open spec fn opt_int_u64(b: Option<u64>) -> Option<int> {
    match b {
        Some(v) => Some(v as int),
        None => None,
    }
}

/// Clamping a value between two optional bounds.
pub trait OptionalClamp {
    type N;

    /// The clamped value as an integer, for the bounds given.
    spec fn clamped(&self, min: Option<Self::N>, max: Option<Self::N>) -> int;

    /// The value as an integer.
    spec fn as_int(n: Self::N) -> int;

    /// Clamp a value between two other values. The other values are optional. If both
    /// `min` and `max` are `None`, then the return value is equal to `self`.
    fn clamp_optional(&self, min: Option<Self::N>, max: Option<Self::N>) -> (r: Self::N)
        ensures
            Self::as_int(r) == self.clamped(min, max),
    ;
}

impl OptionalClamp for i32 {
    type N = i32;

    open spec fn clamped(&self, min: Option<i32>, max: Option<i32>) -> int {
        clamp_between(*self as int, opt_int_i32(min), opt_int_i32(max))
    }

    open spec fn as_int(n: i32) -> int {
        n as int
    }

    fn clamp_optional(&self, min: Option<i32>, max: Option<i32>) -> (r: i32) {
        let mut new_val = *self;
        if let Some(min) = min {
            if new_val < min {
                new_val = min;
            }
        }
        if let Some(max) = max {
            if new_val > max {
                new_val = max;
            }
        }
        new_val
    }
}

impl OptionalClamp for i64 {
    type N = i64;

    open spec fn clamped(&self, min: Option<i64>, max: Option<i64>) -> int {
        clamp_between(*self as int, opt_int_i64(min), opt_int_i64(max))
    }

    open spec fn as_int(n: i64) -> int {
        n as int
    }

    fn clamp_optional(&self, min: Option<i64>, max: Option<i64>) -> (r: i64) {
        let mut new_val = *self;
        if let Some(min) = min {
            if new_val < min {
                new_val = min;
            }
        }
        if let Some(max) = max {
            if new_val > max {
                new_val = max;
            }
        }
        new_val
    }
}

impl OptionalClamp for u32 {
    type N = u32;

    open spec fn clamped(&self, min: Option<u32>, max: Option<u32>) -> int {
        clamp_between(*self as int, opt_int_u32(min), opt_int_u32(max))
    }

    open spec fn as_int(n: u32) -> int {
        n as int
    }

    fn clamp_optional(&self, min: Option<u32>, max: Option<u32>) -> (r: u32) {
        let mut new_val = *self;
        if let Some(min) = min {
            if new_val < min {
                new_val = min;
            }
        }
        if let Some(max) = max {
            if new_val > max {
                new_val = max;
            }
        }
        new_val
    }
}

impl OptionalClamp for u64 {
    type N = u64;

    open spec fn clamped(&self, min: Option<u64>, max: Option<u64>) -> int {
        clamp_between(*self as int, opt_int_u64(min), opt_int_u64(max))
    }

    open spec fn as_int(n: u64) -> int {
        n as int
    }

    fn clamp_optional(&self, min: Option<u64>, max: Option<u64>) -> (r: u64) {
        let mut new_val = *self;
        if let Some(min) = min {
            if new_val < min {
                new_val = min;
            }
        }
        if let Some(max) = max {
            if new_val > max {
                new_val = max;
            }
        }
        new_val
    }
}

/// Clamping twice with the same bounds gives the same value as clamping once.
pub proof fn lemma_clamp_idempotent(value: int, lower: Option<int>, upper: Option<int>)
    ensures
        clamp_between(clamp_between(value, lower, upper), lower, upper) == clamp_between(
            value,
            lower,
            upper,
        ),
{
}

/// A value that already satisfies the bounds is returned unchanged.
pub proof fn lemma_clamp_keeps_valid(value: int, lower: Option<int>, upper: Option<int>)
    requires
        within_bounds(value, lower, upper),
    ensures
        clamp_between(value, lower, upper) == value,
{
}

/// With bounds that do not cross, the clamped value satisfies both of them.
pub proof fn lemma_clamp_within(value: int, lower: Option<int>, upper: Option<int>)
    requires
        bounds_ordered(lower, upper),
    ensures
        within_bounds(clamp_between(value, lower, upper), lower, upper),
{
}

/// Whatever value a zoom step produced, clamping it with a lower limit `floor` (and an
/// upper limit that is absent or not below `floor`) never yields less than `floor`.
pub proof fn lemma_zoom_floor(value: int, floor: int, upper: Option<int>)
    requires
        bounds_ordered(Some(floor), upper),
    ensures
        clamp_between(value, Some(floor), upper) >= floor,
{
}

} // verus!
