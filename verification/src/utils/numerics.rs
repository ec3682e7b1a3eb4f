use vstd::prelude::*;

verus! {

/// The distance between two integers on the number line.
pub open spec fn distance(a: int, b: int) -> int {
    if a > b {
        a - b
    } else {
        b - a
    }
}

/// The value `v` held between `lo` and `hi`: `lo` when `v` lies below it, else `hi` when
/// `v` lies above it, else `v` itself. The lower bound is tested first, so with `lo > hi`
/// a value below `lo` still gives `lo`.
pub open spec fn clamped(v: int, lo: int, hi: int) -> int {
    if v < lo {
        lo
    } else if v > hi {
        hi
    } else {
        v
    }
}

/// Absolute difference of two numbers.
///
/// `A` is the type of the other operand, `B` the type of the result.
pub trait AbsDiff<A, B> {
    /// Whether the difference can be represented in the result type. It always can for
    /// the unsigned types; two signed numbers may lie further apart than the largest
    /// value of their type.
    spec fn abs_diff_fits(&self, other: A) -> bool;

    /// The difference, as a value of the result type.
    spec fn abs_diff_spec(&self, other: A) -> B;

    fn abs_diff(&self, other: A) -> (diff: B)
        requires
            self.abs_diff_fits(other),
        ensures
            diff == self.abs_diff_spec(other),
    ;
}

/// Limits a number to a range.
///
/// `A` is the type of the result, `B` and `C` the types of the lower and upper bound.
pub trait Clamp<A, B, C> {
    /// The limited value: `min` if `self < min`, else `max` if `self > max`, else `self`.
    spec fn clamp_spec(&self, min: B, max: C) -> A;

    fn clamp(&self, min: B, max: C) -> (limited: A)
        ensures
            limited == self.clamp_spec(min, max),
    ;
}

impl AbsDiff<u128, u128> for u128 {
    open spec fn abs_diff_fits(&self, other: u128) -> bool {
        true
    }

    open spec fn abs_diff_spec(&self, other: u128) -> u128 {
        distance(*self as int, other as int) as u128
    }

    fn abs_diff(&self, other: u128) -> (diff: u128) {
        if *self > other {
            *self - other
        } else {
            other - *self
        }
    }
}

impl<'a> AbsDiff<&'a u128, u128> for u128 {
    open spec fn abs_diff_fits(&self, other: &'a u128) -> bool {
        true
    }

    open spec fn abs_diff_spec(&self, other: &'a u128) -> u128 {
        distance(*self as int, *other as int) as u128
    }

    fn abs_diff(&self, other: &'a u128) -> (diff: u128) {
        if *self > *other {
            *self - *other
        } else {
            *other - *self
        }
    }
}

impl AbsDiff<i128, i128> for i128 {
    open spec fn abs_diff_fits(&self, other: i128) -> bool {
        distance(*self as int, other as int) <= i128::MAX
    }

    open spec fn abs_diff_spec(&self, other: i128) -> i128 {
        distance(*self as int, other as int) as i128
    }

    fn abs_diff(&self, other: i128) -> (diff: i128) {
        if *self > other {
            *self - other
        } else {
            other - *self
        }
    }
}

impl<'a> AbsDiff<&'a i128, i128> for i128 {
    open spec fn abs_diff_fits(&self, other: &'a i128) -> bool {
        distance(*self as int, *other as int) <= i128::MAX
    }

    open spec fn abs_diff_spec(&self, other: &'a i128) -> i128 {
        distance(*self as int, *other as int) as i128
    }

    fn abs_diff(&self, other: &'a i128) -> (diff: i128) {
        if *self > *other {
            *self - *other
        } else {
            *other - *self
        }
    }
}

impl AbsDiff<u64, u64> for u64 {
    open spec fn abs_diff_fits(&self, other: u64) -> bool {
        true
    }

    open spec fn abs_diff_spec(&self, other: u64) -> u64 {
        distance(*self as int, other as int) as u64
    }

    fn abs_diff(&self, other: u64) -> (diff: u64) {
        if *self > other {
            *self - other
        } else {
            other - *self
        }
    }
}

impl<'a> AbsDiff<&'a u64, u64> for u64 {
    open spec fn abs_diff_fits(&self, other: &'a u64) -> bool {
        true
    }

    open spec fn abs_diff_spec(&self, other: &'a u64) -> u64 {
        distance(*self as int, *other as int) as u64
    }

    fn abs_diff(&self, other: &'a u64) -> (diff: u64) {
        if *self > *other {
            *self - *other
        } else {
            *other - *self
        }
    }
}

impl AbsDiff<i64, i64> for i64 {
    open spec fn abs_diff_fits(&self, other: i64) -> bool {
        distance(*self as int, other as int) <= i64::MAX
    }

    open spec fn abs_diff_spec(&self, other: i64) -> i64 {
        distance(*self as int, other as int) as i64
    }

    fn abs_diff(&self, other: i64) -> (diff: i64) {
        if *self > other {
            *self - other
        } else {
            other - *self
        }
    }
}

impl<'a> AbsDiff<&'a i64, i64> for i64 {
    open spec fn abs_diff_fits(&self, other: &'a i64) -> bool {
        distance(*self as int, *other as int) <= i64::MAX
    }

    open spec fn abs_diff_spec(&self, other: &'a i64) -> i64 {
        distance(*self as int, *other as int) as i64
    }

    fn abs_diff(&self, other: &'a i64) -> (diff: i64) {
        if *self > *other {
            *self - *other
        } else {
            *other - *self
        }
    }
}

impl AbsDiff<u32, u32> for u32 {
    open spec fn abs_diff_fits(&self, other: u32) -> bool {
        true
    }

    open spec fn abs_diff_spec(&self, other: u32) -> u32 {
        distance(*self as int, other as int) as u32
    }

    fn abs_diff(&self, other: u32) -> (diff: u32) {
        if *self > other {
            *self - other
        } else {
            other - *self
        }
    }
}

impl<'a> AbsDiff<&'a u32, u32> for u32 {
    open spec fn abs_diff_fits(&self, other: &'a u32) -> bool {
        true
    }

    open spec fn abs_diff_spec(&self, other: &'a u32) -> u32 {
        distance(*self as int, *other as int) as u32
    }

    fn abs_diff(&self, other: &'a u32) -> (diff: u32) {
        if *self > *other {
            *self - *other
        } else {
            *other - *self
        }
    }
}

impl AbsDiff<i32, i32> for i32 {
    open spec fn abs_diff_fits(&self, other: i32) -> bool {
        distance(*self as int, other as int) <= i32::MAX
    }

    open spec fn abs_diff_spec(&self, other: i32) -> i32 {
        distance(*self as int, other as int) as i32
    }

    fn abs_diff(&self, other: i32) -> (diff: i32) {
        if *self > other {
            *self - other
        } else {
            other - *self
        }
    }
}

impl<'a> AbsDiff<&'a i32, i32> for i32 {
    open spec fn abs_diff_fits(&self, other: &'a i32) -> bool {
        distance(*self as int, *other as int) <= i32::MAX
    }

    open spec fn abs_diff_spec(&self, other: &'a i32) -> i32 {
        distance(*self as int, *other as int) as i32
    }

    fn abs_diff(&self, other: &'a i32) -> (diff: i32) {
        if *self > *other {
            *self - *other
        } else {
            *other - *self
        }
    }
}

impl AbsDiff<u8, u8> for u8 {
    open spec fn abs_diff_fits(&self, other: u8) -> bool {
        true
    }

    open spec fn abs_diff_spec(&self, other: u8) -> u8 {
        distance(*self as int, other as int) as u8
    }

    fn abs_diff(&self, other: u8) -> (diff: u8) {
        if *self > other {
            *self - other
        } else {
            other - *self
        }
    }
}

impl<'a> AbsDiff<&'a u8, u8> for u8 {
    open spec fn abs_diff_fits(&self, other: &'a u8) -> bool {
        true
    }

    open spec fn abs_diff_spec(&self, other: &'a u8) -> u8 {
        distance(*self as int, *other as int) as u8
    }

    fn abs_diff(&self, other: &'a u8) -> (diff: u8) {
        if *self > *other {
            *self - *other
        } else {
            *other - *self
        }
    }
}

impl AbsDiff<i8, i8> for i8 {
    open spec fn abs_diff_fits(&self, other: i8) -> bool {
        distance(*self as int, other as int) <= i8::MAX
    }

    open spec fn abs_diff_spec(&self, other: i8) -> i8 {
        distance(*self as int, other as int) as i8
    }

    fn abs_diff(&self, other: i8) -> (diff: i8) {
        if *self > other {
            *self - other
        } else {
            other - *self
        }
    }
}

impl<'a> AbsDiff<&'a i8, i8> for i8 {
    open spec fn abs_diff_fits(&self, other: &'a i8) -> bool {
        distance(*self as int, *other as int) <= i8::MAX
    }

    open spec fn abs_diff_spec(&self, other: &'a i8) -> i8 {
        distance(*self as int, *other as int) as i8
    }

    fn abs_diff(&self, other: &'a i8) -> (diff: i8) {
        if *self > *other {
            *self - *other
        } else {
            *other - *self
        }
    }
}

impl AbsDiff<usize, usize> for usize {
    open spec fn abs_diff_fits(&self, other: usize) -> bool {
        true
    }

    open spec fn abs_diff_spec(&self, other: usize) -> usize {
        distance(*self as int, other as int) as usize
    }

    fn abs_diff(&self, other: usize) -> (diff: usize) {
        if *self > other {
            *self - other
        } else {
            other - *self
        }
    }
}

impl<'a> AbsDiff<&'a usize, usize> for usize {
    open spec fn abs_diff_fits(&self, other: &'a usize) -> bool {
        true
    }

    open spec fn abs_diff_spec(&self, other: &'a usize) -> usize {
        distance(*self as int, *other as int) as usize
    }

    fn abs_diff(&self, other: &'a usize) -> (diff: usize) {
        if *self > *other {
            *self - *other
        } else {
            *other - *self
        }
    }
}

impl Clamp<u128, u128, u128> for u128 {
    open spec fn clamp_spec(&self, min: u128, max: u128) -> u128 {
        if *self < min {
            min
        } else if *self > max {
            max
        } else {
            *self
        }
    }

    fn clamp(&self, min: u128, max: u128) -> (limited: u128) {
        if *self < min {
            min
        } else if *self > max {
            max
        } else {
            *self
        }
    }
}

impl<'a, 'b> Clamp<u128, &'a u128, &'b u128> for u128 {
    open spec fn clamp_spec(&self, min: &'a u128, max: &'b u128) -> u128 {
        if *self < *min {
            *min
        } else if *self > *max {
            *max
        } else {
            *self
        }
    }

    fn clamp(&self, min: &'a u128, max: &'b u128) -> (limited: u128) {
        if *self < *min {
            *min
        } else if *self > *max {
            *max
        } else {
            *self
        }
    }
}

impl Clamp<i128, i128, i128> for i128 {
    open spec fn clamp_spec(&self, min: i128, max: i128) -> i128 {
        if *self < min {
            min
        } else if *self > max {
            max
        } else {
            *self
        }
    }

    fn clamp(&self, min: i128, max: i128) -> (limited: i128) {
        if *self < min {
            min
        } else if *self > max {
            max
        } else {
            *self
        }
    }
}

impl<'a, 'b> Clamp<i128, &'a i128, &'b i128> for i128 {
    open spec fn clamp_spec(&self, min: &'a i128, max: &'b i128) -> i128 {
        if *self < *min {
            *min
        } else if *self > *max {
            *max
        } else {
            *self
        }
    }

    fn clamp(&self, min: &'a i128, max: &'b i128) -> (limited: i128) {
        if *self < *min {
            *min
        } else if *self > *max {
            *max
        } else {
            *self
        }
    }
}

impl Clamp<u64, u64, u64> for u64 {
    open spec fn clamp_spec(&self, min: u64, max: u64) -> u64 {
        if *self < min {
            min
        } else if *self > max {
            max
        } else {
            *self
        }
    }

    fn clamp(&self, min: u64, max: u64) -> (limited: u64) {
        if *self < min {
            min
        } else if *self > max {
            max
        } else {
            *self
        }
    }
}

impl<'a, 'b> Clamp<u64, &'a u64, &'b u64> for u64 {
    open spec fn clamp_spec(&self, min: &'a u64, max: &'b u64) -> u64 {
        if *self < *min {
            *min
        } else if *self > *max {
            *max
        } else {
            *self
        }
    }

    fn clamp(&self, min: &'a u64, max: &'b u64) -> (limited: u64) {
        if *self < *min {
            *min
        } else if *self > *max {
            *max
        } else {
            *self
        }
    }
}

impl Clamp<i64, i64, i64> for i64 {
    open spec fn clamp_spec(&self, min: i64, max: i64) -> i64 {
        if *self < min {
            min
        } else if *self > max {
            max
        } else {
            *self
        }
    }

    fn clamp(&self, min: i64, max: i64) -> (limited: i64) {
        if *self < min {
            min
        } else if *self > max {
            max
        } else {
            *self
        }
    }
}

impl<'a, 'b> Clamp<i64, &'a i64, &'b i64> for i64 {
    open spec fn clamp_spec(&self, min: &'a i64, max: &'b i64) -> i64 {
        if *self < *min {
            *min
        } else if *self > *max {
            *max
        } else {
            *self
        }
    }

    fn clamp(&self, min: &'a i64, max: &'b i64) -> (limited: i64) {
        if *self < *min {
            *min
        } else if *self > *max {
            *max
        } else {
            *self
        }
    }
}

impl Clamp<u32, u32, u32> for u32 {
    open spec fn clamp_spec(&self, min: u32, max: u32) -> u32 {
        if *self < min {
            min
        } else if *self > max {
            max
        } else {
            *self
        }
    }

    fn clamp(&self, min: u32, max: u32) -> (limited: u32) {
        if *self < min {
            min
        } else if *self > max {
            max
        } else {
            *self
        }
    }
}

impl<'a, 'b> Clamp<u32, &'a u32, &'b u32> for u32 {
    open spec fn clamp_spec(&self, min: &'a u32, max: &'b u32) -> u32 {
        if *self < *min {
            *min
        } else if *self > *max {
            *max
        } else {
            *self
        }
    }

    fn clamp(&self, min: &'a u32, max: &'b u32) -> (limited: u32) {
        if *self < *min {
            *min
        } else if *self > *max {
            *max
        } else {
            *self
        }
    }
}

impl Clamp<i32, i32, i32> for i32 {
    open spec fn clamp_spec(&self, min: i32, max: i32) -> i32 {
        if *self < min {
            min
        } else if *self > max {
            max
        } else {
            *self
        }
    }

    fn clamp(&self, min: i32, max: i32) -> (limited: i32) {
        if *self < min {
            min
        } else if *self > max {
            max
        } else {
            *self
        }
    }
}

impl<'a, 'b> Clamp<i32, &'a i32, &'b i32> for i32 {
    open spec fn clamp_spec(&self, min: &'a i32, max: &'b i32) -> i32 {
        if *self < *min {
            *min
        } else if *self > *max {
            *max
        } else {
            *self
        }
    }

    fn clamp(&self, min: &'a i32, max: &'b i32) -> (limited: i32) {
        if *self < *min {
            *min
        } else if *self > *max {
            *max
        } else {
            *self
        }
    }
}

impl Clamp<u8, u8, u8> for u8 {
    open spec fn clamp_spec(&self, min: u8, max: u8) -> u8 {
        if *self < min {
            min
        } else if *self > max {
            max
        } else {
            *self
        }
    }

    fn clamp(&self, min: u8, max: u8) -> (limited: u8) {
        if *self < min {
            min
        } else if *self > max {
            max
        } else {
            *self
        }
    }
}

impl<'a, 'b> Clamp<u8, &'a u8, &'b u8> for u8 {
    open spec fn clamp_spec(&self, min: &'a u8, max: &'b u8) -> u8 {
        if *self < *min {
            *min
        } else if *self > *max {
            *max
        } else {
            *self
        }
    }

    fn clamp(&self, min: &'a u8, max: &'b u8) -> (limited: u8) {
        if *self < *min {
            *min
        } else if *self > *max {
            *max
        } else {
            *self
        }
    }
}

impl Clamp<i8, i8, i8> for i8 {
    open spec fn clamp_spec(&self, min: i8, max: i8) -> i8 {
        if *self < min {
            min
        } else if *self > max {
            max
        } else {
            *self
        }
    }

    fn clamp(&self, min: i8, max: i8) -> (limited: i8) {
        if *self < min {
            min
        } else if *self > max {
            max
        } else {
            *self
        }
    }
}

impl<'a, 'b> Clamp<i8, &'a i8, &'b i8> for i8 {
    open spec fn clamp_spec(&self, min: &'a i8, max: &'b i8) -> i8 {
        if *self < *min {
            *min
        } else if *self > *max {
            *max
        } else {
            *self
        }
    }

    fn clamp(&self, min: &'a i8, max: &'b i8) -> (limited: i8) {
        if *self < *min {
            *min
        } else if *self > *max {
            *max
        } else {
            *self
        }
    }
}

impl Clamp<usize, usize, usize> for usize {
    open spec fn clamp_spec(&self, min: usize, max: usize) -> usize {
        if *self < min {
            min
        } else if *self > max {
            max
        } else {
            *self
        }
    }

    fn clamp(&self, min: usize, max: usize) -> (limited: usize) {
        if *self < min {
            min
        } else if *self > max {
            max
        } else {
            *self
        }
    }
}

impl<'a, 'b> Clamp<usize, &'a usize, &'b usize> for usize {
    open spec fn clamp_spec(&self, min: &'a usize, max: &'b usize) -> usize {
        if *self < *min {
            *min
        } else if *self > *max {
            *max
        } else {
            *self
        }
    }

    fn clamp(&self, min: &'a usize, max: &'b usize) -> (limited: usize) {
        if *self < *min {
            *min
        } else if *self > *max {
            *max
        } else {
            *self
        }
    }
}

} // verus!
