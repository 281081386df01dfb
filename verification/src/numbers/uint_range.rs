use crate::numbers::prim::{fits, PrimInt, UnsignedInt};
use crate::numbers::text::{decimal, push_decimal};
use crate::numbers::validated::in_range::{is_numeric_type, spec_is_numeric_type};
use vstd::prelude::*;
use vstd::string::{StringExecFns, StringSliceAdditionalSpecFns};

verus! {

/// The error of [`UIntInRange::try_new`]: the offending value, then the
/// lower and upper bounds it had to lie within.
#[derive(Debug, Clone, Copy, PartialEq, Eq)]
pub struct BadValueError(pub u64, pub u64, pub u64);

impl BadValueError {
    /// The text of the error: `Value must be between MIN and MAX, but got: V`.
    pub fn message(&self) -> (r: String)
        ensures
            r@ == "Value must be between "@ + decimal(self.1 as int) + " and "@ + decimal(
                self.2 as int,
            ) + ", but got: "@ + decimal(self.0 as int),
    {
        let mut s = String::from_str("Value must be between ");
        push_decimal(&mut s, self.1 as i128);
        s.append(" and ");
        push_decimal(&mut s, self.2 as i128);
        s.append(", but got: ");
        push_decimal(&mut s, self.0 as i128);
        s
    }
}

/// An unsigned integer which, when built by [`UIntInRange::try_new`], lies in
/// `MIN..=MAX`.
#[derive(Debug, Clone, Copy)]
pub struct UIntInRange<T: UnsignedInt, const MIN: u64, const MAX: u64>(T);

impl<T: UnsignedInt, const MIN: u64, const MAX: u64> UIntInRange<T, MIN, MAX> {
    /// The mathematical value held.
    pub closed spec fn spec_get(self) -> int {
        self.0.spec_int()
    }

    /// The value respects the bounds of the type.
    pub open spec fn wf(self) -> bool {
        MIN <= self.spec_get() <= MAX
    }

    /// Wraps `value` when it lies in `MIN..=MAX`, and reports it with the
    /// bounds otherwise.
    pub fn try_new(value: T) -> (r: Result<Self, BadValueError>)
        ensures
            match r {
                Ok(v) => MIN <= value.spec_int() <= MAX && v.spec_get() == value.spec_int(),
                Err(e) => !(MIN <= value.spec_int() <= MAX) && e == BadValueError(
                    value.spec_int() as u64,
                    MIN,
                    MAX,
                ),
            },
            r is Ok ==> r->Ok_0.wf(),
    {
        let value_u64: u64 = value.to_u64();
        if value_u64 >= MIN && value_u64 <= MAX {
            Ok(Self(value))
        } else {
            Err(BadValueError(value_u64, MIN, MAX))
        }
    }

    /// The lower bound as a value of the type; it must fit in `T`.
    pub fn min() -> (r: Self)
        requires
            fits::<T>(MIN as int),
        ensures
            r.spec_get() == MIN,
            MIN <= MAX ==> r.wf(),
    {
        Self(T::from_i128(MIN as i128))
    }

    /// The upper bound as a value of the type; it must fit in `T`.
    pub fn max() -> (r: Self)
        requires
            fits::<T>(MAX as int),
        ensures
            r.spec_get() == MAX,
            MIN <= MAX ==> r.wf(),
    {
        Self(T::from_i128(MAX as i128))
    }

    /// The value held.
    pub fn get(&self) -> (r: T)
        ensures
            r.spec_int() == self.spec_get(),
    {
        self.0
    }

    /// The bounds to add to a schema whose `type` is `schema_type`, as its
    /// `minimum` and `maximum`: only a numeric type takes them.
    pub fn schema_bounds(schema_type: Option<&str>) -> (r: Option<(u64, u64)>)
        ensures
            r == (if (match schema_type {
                Some(t) => spec_is_numeric_type(t.spec_bytes()),
                None => false,
            }) {
                Some((MIN, MAX))
            } else {
                None::<(u64, u64)>
            }),
    {
        match schema_type {
            Some(t) => if is_numeric_type(t) {
                Some((MIN, MAX))
            } else {
                None
            },
            None => None,
        }
    }
}

} // verus!
