use crate::numbers::prim::{fits, PrimInt};
use crate::numbers::text::{decimal, push_decimal};
use vstd::prelude::*;
use vstd::string::StringExecFns;

verus! {

/// Why a range was rejected by [`RangeInclusiveModel::try_new`].
#[derive(Debug, Clone, Copy)]
pub enum RangeError<T> {
    /// The step is zero or negative.
    StepNotPositive,
    /// The step does not evenly divide the distance between the bounds; the
    /// fields are the step and the smaller and larger bound.
    StepDoesNotDivide { step: T, min: T, max: T },
}

impl<T: PrimInt> RangeError<T> {
    /// The text of the error, as the range's reader reports it.
    pub fn message(&self) -> (r: String)
        ensures
            match self {
                RangeError::StepNotPositive => r@ == "Step must be greater than zero"@,
                RangeError::StepDoesNotDivide { step, min, max } => r@ == "Range step "@ + decimal(
                    step.spec_int(),
                ) + " does not evenly divide the range from "@ + decimal(min.spec_int()) + " to "@
                    + decimal(max.spec_int()),
            },
    {
        match self {
            RangeError::StepNotPositive => String::from_str("Step must be greater than zero"),
            RangeError::StepDoesNotDivide { step, min, max } => {
                proof {
                    step.lemma_bounds();
                    min.lemma_bounds();
                    max.lemma_bounds();
                }
                let mut s = String::from_str("Range step ");
                push_decimal(&mut s, step.to_i128());
                s.append(" does not evenly divide the range from ");
                push_decimal(&mut s, min.to_i128());
                s.append(" to ");
                push_decimal(&mut s, max.to_i128());
                s
            },
        }
    }
}

/// The smaller of two integers.
pub open spec fn spec_lo(a: int, b: int) -> int {
    if a <= b { a } else { b }
}

/// The larger of two integers.
pub open spec fn spec_hi(a: int, b: int) -> int {
    if a <= b { b } else { a }
}

/// Whether `from..=to` walked by `step` is a valid range of `T`: the step is
/// positive, divides the distance between the bounds, and that distance is
/// itself a value of `T`.
pub open spec fn valid_range<T: PrimInt>(from: int, to: int, step: int) -> bool {
    &&& step > 0
    &&& fits::<T>(spec_hi(from, to) - spec_lo(from, to))
    &&& (spec_hi(from, to) - spec_lo(from, to)) % step == 0
}

/// An inclusive range of integers from `from` to `to` (in either direction),
/// walked by a positive `step` that divides the distance between the bounds.
#[derive(Debug, Copy)]
pub struct RangeInclusiveModel<T: PrimInt> {
    from: T,
    to: T,
    step: T,
}

impl<T: PrimInt> Clone for RangeInclusiveModel<T> {
    fn clone(&self) -> (r: Self)
        ensures
            r == *self,
    {
        proof {
            use_type_invariant(self);
        }
        RangeInclusiveModel { from: self.from, to: self.to, step: self.step }
    }
}

impl<T: PrimInt> RangeInclusiveModel<T> {
    #[verifier::type_invariant]
    spec fn inv(self) -> bool {
        valid_range::<T>(self.from.spec_int(), self.to.spec_int(), self.step.spec_int())
    }

    /// The first bound.
    pub closed spec fn spec_from(self) -> int {
        self.from.spec_int()
    }

    /// The last bound.
    pub closed spec fn spec_to(self) -> int {
        self.to.spec_int()
    }

    /// The step.
    pub closed spec fn spec_step(self) -> int {
        self.step.spec_int()
    }

    /// The smaller bound.
    pub open spec fn spec_min(self) -> int {
        spec_lo(self.spec_from(), self.spec_to())
    }

    /// The larger bound.
    pub open spec fn spec_max(self) -> int {
        spec_hi(self.spec_from(), self.spec_to())
    }

    /// Whether `e` is one of the range's elements.
    pub open spec fn spec_contains(self, e: int) -> bool {
        self.spec_min() <= e <= self.spec_max() && (e - self.spec_min()) % self.spec_step() == 0
    }

    /// The number of steps between the bounds.
    pub open spec fn spec_len(self) -> int {
        (self.spec_max() - self.spec_min()) / self.spec_step()
    }

    /// The `i`-th element walking from `from` towards `to`.
    pub open spec fn spec_nth(self, i: int) -> int {
        if self.spec_from() <= self.spec_to() {
            self.spec_from() + i * self.spec_step()
        } else {
            self.spec_from() - i * self.spec_step()
        }
    }

    /// Builds the range `from..=to` walked by `step`. It is refused when the
    /// step is not positive, or when it does not evenly divide the distance
    /// between the bounds. That distance must be a value of `T`.
    pub fn try_new(from: T, to: T, step: T) -> (r: Result<Self, RangeError<T>>)
        requires
            step.spec_int() > 0 ==> fits::<T>(
                spec_hi(from.spec_int(), to.spec_int()) - spec_lo(from.spec_int(), to.spec_int()),
            ),
        ensures
            match r {
                Ok(range) => {
                    &&& valid_range::<T>(from.spec_int(), to.spec_int(), step.spec_int())
                    &&& range.spec_from() == from.spec_int()
                    &&& range.spec_to() == to.spec_int()
                    &&& range.spec_step() == step.spec_int()
                },
                Err(RangeError::StepNotPositive) => step.spec_int() <= 0,
                Err(RangeError::StepDoesNotDivide { step: s, min, max }) => {
                    &&& step.spec_int() > 0
                    &&& !valid_range::<T>(from.spec_int(), to.spec_int(), step.spec_int())
                    &&& s == step
                    &&& min.spec_int() == spec_lo(from.spec_int(), to.spec_int())
                    &&& max.spec_int() == spec_hi(from.spec_int(), to.spec_int())
                },
            },
    {
        proof {
            from.lemma_bounds();
            to.lemma_bounds();
            step.lemma_bounds();
        }
        let f = from.to_i128();
        let t = to.to_i128();
        let s = step.to_i128();
        if s <= 0 {
            return Err(RangeError::StepNotPositive);
        }
        let (lo, hi, min, max) = if f <= t { (f, t, from, to) } else { (t, f, to, from) };
        if (hi - lo) % s != 0 {
            return Err(RangeError::StepDoesNotDivide { step, min, max });
        }
        Ok(RangeInclusiveModel { from, to, step })
    }

    /// The range holding the single value `value`, with a step of one.
    pub fn single(value: T) -> (r: Self)
        ensures
            r.spec_from() == value.spec_int(),
            r.spec_to() == value.spec_int(),
            r.spec_step() == 1,
    {
        proof {
            value.lemma_bounds();
        }
        RangeInclusiveModel { from: value, to: value, step: T::one() }
    }

    /// The first bound.
    pub fn from(&self) -> (r: &T)
        ensures
            r.spec_int() == self.spec_from(),
    {
        &self.from
    }

    /// The last bound.
    pub fn to(&self) -> (r: &T)
        ensures
            r.spec_int() == self.spec_to(),
    {
        &self.to
    }

    /// The step.
    pub fn step(&self) -> (r: &T)
        ensures
            r.spec_int() == self.spec_step(),
    {
        &self.step
    }

    /// Whether `element` lies between the bounds at a whole number of steps
    /// from the smaller one.
    pub fn contains(&self, element: &T) -> (r: bool)
        ensures
            r == self.spec_contains(element.spec_int()),
    {
        proof {
            use_type_invariant(self);
            element.lemma_bounds();
        }
        let (min, max) = self.min_max();
        let e = element.to_i128();
        let lo = min.to_i128();
        let hi = max.to_i128();
        if e < lo || e > hi {
            return false;
        }
        let s = self.step.to_i128();
        (e - lo) % s == 0
    }

    /// The number of steps between the smaller and the larger bound.
    pub fn len(&self) -> (r: T)
        ensures
            r.spec_int() == self.spec_len(),
    {
        proof {
            use_type_invariant(self);
            self.from.lemma_bounds();
            self.to.lemma_bounds();
            self.step.lemma_bounds();
        }
        let (min, max) = self.min_max();
        let d = max.to_i128() - min.to_i128();
        let s = self.step.to_i128();
        let q = d / s;
        proof {
            assert(0 <= q <= d) by (nonlinear_arith)
                requires
                    q == d / s,
                    d >= 0,
                    s > 0,
            ;
            T::lemma_bounds(*min);
        }
        T::from_i128(q)
    }

    /// The elements of the range, from `from` towards `to`, one step apart.
    ///
    /// Walking the range steps once past `to`; that step must stay within
    /// `T`. The elements must fit in a vector.
    pub fn iter(&self) -> (r: Vec<T>)
        requires
            self.spec_from() <= self.spec_to() ==> fits::<T>(self.spec_to() + self.spec_step()),
            self.spec_from() > self.spec_to() ==> fits::<T>(self.spec_to() - self.spec_step()),
            self.spec_len() + 1 <= usize::MAX,
        ensures
            r.len() == self.spec_len() + 1,
            forall|i: int| 0 <= i < r.len() ==> (#[trigger] r[i]).spec_int() == self.spec_nth(i),
            forall|i: int| 0 <= i < r.len() ==> self.spec_contains((#[trigger] r[i]).spec_int()),
            r[0].spec_int() == self.spec_from(),
            r[r.len() - 1].spec_int() == self.spec_to(),
            forall|i: int|
                0 <= i < r.len() - 1 ==> (if self.spec_from() <= self.spec_to() {
                    (#[trigger] r[i + 1]).spec_int() - r[i].spec_int() == self.spec_step()
                } else {
                    r[i].spec_int() - r[i + 1].spec_int() == self.spec_step()
                }),
    {
        proof {
            use_type_invariant(self);
            self.from.lemma_bounds();
            self.to.lemma_bounds();
            self.step.lemma_bounds();
        }
        let ascending = self.from.to_i128() <= self.to.to_i128();
        let end = self.to.to_i128();
        let s = self.step.to_i128();
        let mut current = self.from.to_i128();
        let mut out: Vec<T> = Vec::new();
        let ghost n = self.spec_len();
        let ghost d = self.spec_max() - self.spec_min();
        proof {
            let si: int = s as int;
            assert(d == n * si) by (nonlinear_arith)
                requires
                    d % si == 0,
                    n == d / si,
                    si > 0,
            ;
        }
        let mut i: usize = 0;
        while (ascending && current <= end) || (!ascending && current >= end)
            invariant
                ascending == (self.spec_from() <= self.spec_to()),
                end == self.spec_to(),
                s == self.spec_step(),
                s > 0,
                d == n * s,
                d == self.spec_max() - self.spec_min(),
                n == self.spec_len(),
                n >= 0,
                n + 1 <= usize::MAX,
                0 <= i <= n + 1,
                out.len() == i,
                current == self.spec_nth(i as int),
                forall|j: int| 0 <= j < out.len() ==> (#[trigger] out[j]).spec_int() == self.spec_nth(j),
                valid_range::<T>(self.spec_from(), self.spec_to(), self.spec_step()),
                fits::<T>(self.spec_from()),
                fits::<T>(self.spec_to()),
                s <= T::spec_max(),
                i64::MIN <= T::spec_min(),
                T::spec_max() <= u64::MAX,
                ascending ==> fits::<T>(self.spec_to() + self.spec_step()),
                !ascending ==> fits::<T>(self.spec_to() - self.spec_step()),
            decreases n + 1 - i,
        {
            proof {
                if ascending {
                    assert(i <= n) by (nonlinear_arith)
                        requires
                            current == self.spec_from() + i * s,
                            current <= end,
                            end == self.spec_from() + n * s,
                            s > 0,
                    ;
                    assert(self.spec_from() <= current <= end);
                } else {
                    assert(i <= n) by (nonlinear_arith)
                        requires
                            current == self.spec_from() - i * s,
                            current >= end,
                            end == self.spec_from() - n * s,
                            s > 0,
                    ;
                    assert(end <= current <= self.spec_from()) by (nonlinear_arith)
                        requires
                            current == self.spec_from() - i * s,
                            current >= end,
                            i >= 0,
                            s > 0,
                    ;
                }
                assert(self.spec_from() + (i + 1) * s == self.spec_from() + i * s + s) by (nonlinear_arith);
                assert(self.spec_from() - (i + 1) * s == self.spec_from() - i * s - s) by (nonlinear_arith);
            }
            out.push(T::from_i128(current));
            if ascending {
                current = current + s;
            } else {
                current = current - s;
            }
            i = i + 1;
        }
        proof {
            if ascending {
                assert(i > n) by (nonlinear_arith)
                    requires
                        current == self.spec_from() + i * s,
                        current > end,
                        end == self.spec_from() + n * s,
                        s > 0,
                ;
            } else {
                assert(i > n) by (nonlinear_arith)
                    requires
                        current == self.spec_from() - i * s,
                        current < end,
                        end == self.spec_from() - n * s,
                        s > 0,
                ;
            }
            assert forall|k: int| 0 <= k < out.len() implies self.spec_contains((#[trigger] out[k]).spec_int()) by {
                law_walked_elements_contained(*self, k);
            }
            assert forall|k: int| 0 <= k < out.len() - 1 implies (if self.spec_from() <= self.spec_to() {
                (#[trigger] out[k + 1]).spec_int() - out[k].spec_int() == self.spec_step()
            } else {
                out[k].spec_int() - out[k + 1].spec_int() == self.spec_step()
            }) by {
                assert(out[k + 1].spec_int() == self.spec_nth(k + 1));
                assert((k + 1) * s == k * s + s) by (nonlinear_arith);
            }
            assert(self.spec_nth(n) == self.spec_to()) by {
                assert(self.spec_from() <= self.spec_to() ==> self.spec_to() == self.spec_from() + n * s);
                assert(self.spec_from() > self.spec_to() ==> self.spec_to() == self.spec_from() - n * s);
            }
            assert(out[0].spec_int() == self.spec_nth(0));
        }
        out
    }

    /// The bounds ordered as (smaller, larger).
    fn min_max(&self) -> (r: (&T, &T))
        ensures
            r.0.spec_int() == self.spec_min(),
            r.1.spec_int() == self.spec_max(),
    {
        if self.from.to_i128() <= self.to.to_i128() {
            (&self.from, &self.to)
        } else {
            (&self.to, &self.from)
        }
    }
}

/// Every element that walking a valid range yields is contained in it:
/// the `i`-th element, for `i` from zero to the number of steps.
pub proof fn law_walked_elements_contained<T: PrimInt>(r: RangeInclusiveModel<T>, i: int)
    requires
        valid_range::<T>(r.spec_from(), r.spec_to(), r.spec_step()),
        0 <= i <= r.spec_len(),
    ensures
        r.spec_contains(r.spec_nth(i)),
{
    let s = r.spec_step();
    let d = r.spec_max() - r.spec_min();
    let n = r.spec_len();
    assert(d == n * s) by (nonlinear_arith)
        requires
            d % s == 0,
            n == d / s,
            s > 0,
    ;
    assert(0 <= i * s <= n * s) by (nonlinear_arith)
        requires
            0 <= i <= n,
            s > 0,
    ;
    if r.spec_from() <= r.spec_to() {
        assert(r.spec_nth(i) - r.spec_min() == i * s);
        vstd::arithmetic::div_mod::lemma_mod_multiples_basic(i, s);
    } else {
        assert(r.spec_nth(i) - r.spec_min() == (n - i) * s) by (nonlinear_arith)
            requires
                r.spec_nth(i) == r.spec_max() - i * s,
                d == r.spec_max() - r.spec_min(),
                d == n * s,
        ;
        vstd::arithmetic::div_mod::lemma_mod_multiples_basic(n - i, s);
    }
}

/// Every element contained in a valid range is yielded by walking it: it
/// is the `i`-th element for some `i` from zero to the number of steps.
pub proof fn law_contained_elements_walked<T: PrimInt>(r: RangeInclusiveModel<T>, e: int)
    requires
        valid_range::<T>(r.spec_from(), r.spec_to(), r.spec_step()),
        r.spec_contains(e),
    ensures
        exists|i: int| 0 <= i <= r.spec_len() && r.spec_nth(i) == e,
{
    let s = r.spec_step();
    let d = r.spec_max() - r.spec_min();
    let n = r.spec_len();
    assert(d == n * s) by (nonlinear_arith)
        requires
            d % s == 0,
            n == d / s,
            s > 0,
    ;
    let q = (e - r.spec_min()) / s;
    assert(e - r.spec_min() == q * s) by (nonlinear_arith)
        requires
            (e - r.spec_min()) % s == 0,
            q == (e - r.spec_min()) / s,
            s > 0,
    ;
    assert(0 <= q <= n) by (nonlinear_arith)
        requires
            0 <= q * s <= n * s,
            s > 0,
    ;
    if r.spec_from() <= r.spec_to() {
        assert(r.spec_nth(q) == e);
    } else {
        assert(r.spec_nth(n - q) == e) by (nonlinear_arith)
            requires
                r.spec_nth(n - q) == r.spec_max() - (n - q) * s,
                e - r.spec_min() == q * s,
                r.spec_max() - r.spec_min() == n * s,
        ;
        assert(0 <= n - q <= n);
    }
}

/// Walking a valid range starts at its first bound and, after the number of
/// steps, ends at its last bound.
pub proof fn law_walk_ends<T: PrimInt>(r: RangeInclusiveModel<T>)
    requires
        valid_range::<T>(r.spec_from(), r.spec_to(), r.spec_step()),
    ensures
        r.spec_nth(0) == r.spec_from(),
        r.spec_nth(r.spec_len()) == r.spec_to(),
        r.spec_len() >= 0,
{
    let s = r.spec_step();
    let d = r.spec_max() - r.spec_min();
    let n = r.spec_len();
    assert(d == n * s && n >= 0) by (nonlinear_arith)
        requires
            d % s == 0,
            n == d / s,
            s > 0,
            d >= 0,
    ;
    assert(0 * s == 0);
}


} // verus!
