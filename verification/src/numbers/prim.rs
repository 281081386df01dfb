use vstd::prelude::*;

verus! {

/// A primitive integer type whose every value fits in an `i128`.
///
/// The library's numeric models (ranges, validated values) are generic over
/// this trait; all arithmetic on them is carried out on `i128`, where it
/// cannot overflow, and converted back only when the result is proved to fit.
pub trait PrimInt: Copy + Sized {
    /// The mathematical value of `self`.
    spec fn spec_int(self) -> int;

    /// The smallest value of the type.
    spec fn spec_min() -> int;

    /// The largest value of the type.
    spec fn spec_max() -> int;

    /// Every value of the type lies between its bounds, and the type is no
    /// wider than 64 bits.
    proof fn lemma_bounds(self)
        ensures
            Self::spec_min() <= self.spec_int() <= Self::spec_max(),
            i64::MIN <= Self::spec_min() <= 0 < Self::spec_max() <= u64::MAX,
    ;

    /// Two values are equal exactly when their mathematical values are.
    proof fn lemma_injective(self, other: Self)
        ensures
            self.spec_int() == other.spec_int() ==> self == other,
    ;

    /// Widens the value to an `i128`.
    fn to_i128(self) -> (r: i128)
        ensures
            r == self.spec_int(),
    ;

    /// Narrows an `i128` that fits in the type.
    fn from_i128(v: i128) -> (r: Self)
        requires
            Self::spec_min() <= v <= Self::spec_max(),
        ensures
            r.spec_int() == v,
    ;

    /// The value zero.
    fn zero() -> (r: Self)
        ensures
            r.spec_int() == 0,
    ;

    /// The value one.
    fn one() -> (r: Self)
        ensures
            r.spec_int() == 1,
    ;
}

/// Whether `v` is a value of the integer type `T`.
pub open spec fn fits<T: PrimInt>(v: int) -> bool {
    T::spec_min() <= v <= T::spec_max()
}

impl PrimInt for u8 {
    open spec fn spec_int(self) -> int { self as int }
    open spec fn spec_min() -> int { 0 }
    open spec fn spec_max() -> int { u8::MAX as int }
    proof fn lemma_bounds(self) {}
    proof fn lemma_injective(self, other: Self) {}
    fn to_i128(self) -> (r: i128) { self as i128 }
    fn from_i128(v: i128) -> (r: Self) { v as u8 }
    fn zero() -> (r: Self) { 0 }
    fn one() -> (r: Self) { 1 }
}

impl PrimInt for u16 {
    open spec fn spec_int(self) -> int { self as int }
    open spec fn spec_min() -> int { 0 }
    open spec fn spec_max() -> int { u16::MAX as int }
    proof fn lemma_bounds(self) {}
    proof fn lemma_injective(self, other: Self) {}
    fn to_i128(self) -> (r: i128) { self as i128 }
    fn from_i128(v: i128) -> (r: Self) { v as u16 }
    fn zero() -> (r: Self) { 0 }
    fn one() -> (r: Self) { 1 }
}

impl PrimInt for u32 {
    open spec fn spec_int(self) -> int { self as int }
    open spec fn spec_min() -> int { 0 }
    open spec fn spec_max() -> int { u32::MAX as int }
    proof fn lemma_bounds(self) {}
    proof fn lemma_injective(self, other: Self) {}
    fn to_i128(self) -> (r: i128) { self as i128 }
    fn from_i128(v: i128) -> (r: Self) { v as u32 }
    fn zero() -> (r: Self) { 0 }
    fn one() -> (r: Self) { 1 }
}

impl PrimInt for u64 {
    open spec fn spec_int(self) -> int { self as int }
    open spec fn spec_min() -> int { 0 }
    open spec fn spec_max() -> int { u64::MAX as int }
    proof fn lemma_bounds(self) {}
    proof fn lemma_injective(self, other: Self) {}
    fn to_i128(self) -> (r: i128) { self as i128 }
    fn from_i128(v: i128) -> (r: Self) { v as u64 }
    fn zero() -> (r: Self) { 0 }
    fn one() -> (r: Self) { 1 }
}

impl PrimInt for usize {
    open spec fn spec_int(self) -> int { self as int }
    open spec fn spec_min() -> int { 0 }
    open spec fn spec_max() -> int { usize::MAX as int }
    proof fn lemma_bounds(self) {}
    proof fn lemma_injective(self, other: Self) {}
    fn to_i128(self) -> (r: i128) { self as i128 }
    fn from_i128(v: i128) -> (r: Self) { v as usize }
    fn zero() -> (r: Self) { 0 }
    fn one() -> (r: Self) { 1 }
}

impl PrimInt for i8 {
    open spec fn spec_int(self) -> int { self as int }
    open spec fn spec_min() -> int { i8::MIN as int }
    open spec fn spec_max() -> int { i8::MAX as int }
    proof fn lemma_bounds(self) {}
    proof fn lemma_injective(self, other: Self) {}
    fn to_i128(self) -> (r: i128) { self as i128 }
    fn from_i128(v: i128) -> (r: Self) { v as i8 }
    fn zero() -> (r: Self) { 0 }
    fn one() -> (r: Self) { 1 }
}

impl PrimInt for i16 {
    open spec fn spec_int(self) -> int { self as int }
    open spec fn spec_min() -> int { i16::MIN as int }
    open spec fn spec_max() -> int { i16::MAX as int }
    proof fn lemma_bounds(self) {}
    proof fn lemma_injective(self, other: Self) {}
    fn to_i128(self) -> (r: i128) { self as i128 }
    fn from_i128(v: i128) -> (r: Self) { v as i16 }
    fn zero() -> (r: Self) { 0 }
    fn one() -> (r: Self) { 1 }
}

impl PrimInt for i32 {
    open spec fn spec_int(self) -> int { self as int }
    open spec fn spec_min() -> int { i32::MIN as int }
    open spec fn spec_max() -> int { i32::MAX as int }
    proof fn lemma_bounds(self) {}
    proof fn lemma_injective(self, other: Self) {}
    fn to_i128(self) -> (r: i128) { self as i128 }
    fn from_i128(v: i128) -> (r: Self) { v as i32 }
    fn zero() -> (r: Self) { 0 }
    fn one() -> (r: Self) { 1 }
}

impl PrimInt for i64 {
    open spec fn spec_int(self) -> int { self as int }
    open spec fn spec_min() -> int { i64::MIN as int }
    open spec fn spec_max() -> int { i64::MAX as int }
    proof fn lemma_bounds(self) {}
    proof fn lemma_injective(self, other: Self) {}
    fn to_i128(self) -> (r: i128) { self as i128 }
    fn from_i128(v: i128) -> (r: Self) { v as i64 }
    fn zero() -> (r: Self) { 0 }
    fn one() -> (r: Self) { 1 }
}

impl PrimInt for isize {
    open spec fn spec_int(self) -> int { self as int }
    open spec fn spec_min() -> int { isize::MIN as int }
    open spec fn spec_max() -> int { isize::MAX as int }
    proof fn lemma_bounds(self) {}
    proof fn lemma_injective(self, other: Self) {}
    fn to_i128(self) -> (r: i128) { self as i128 }
    fn from_i128(v: i128) -> (r: Self) { v as isize }
    fn zero() -> (r: Self) { 0 }
    fn one() -> (r: Self) { 1 }
}

} // verus!

verus! {

/// An unsigned primitive integer no wider than 64 bits.
pub trait UnsignedInt: PrimInt {
    /// Unsigned types start at zero and end within the `u64` range.
    proof fn lemma_unsigned_bounds()
        ensures
            Self::spec_min() == 0,
            Self::spec_max() <= u64::MAX,
    ;

    /// Widens the value to a `u64`.
    fn to_u64(self) -> (r: u64)
        ensures
            r == self.spec_int(),
    ;
}

impl UnsignedInt for u8 {
    proof fn lemma_unsigned_bounds() {}
    fn to_u64(self) -> (r: u64) { self as u64 }
}

impl UnsignedInt for u16 {
    proof fn lemma_unsigned_bounds() {}
    fn to_u64(self) -> (r: u64) { self as u64 }
}

impl UnsignedInt for u32 {
    proof fn lemma_unsigned_bounds() {}
    fn to_u64(self) -> (r: u64) { self as u64 }
}

impl UnsignedInt for u64 {
    proof fn lemma_unsigned_bounds() {}
    fn to_u64(self) -> (r: u64) { self }
}

impl UnsignedInt for usize {
    proof fn lemma_unsigned_bounds() {}
    fn to_u64(self) -> (r: u64) { self as u64 }
}

} // verus!
