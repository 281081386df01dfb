use crate::numbers::prim::PrimInt;
use crate::numbers::text::{decimal, push_decimal};
use crate::numbers::validated::ValueValidator;
use core::marker::PhantomData;
use vstd::prelude::*;
use vstd::string::{StringExecFns, StringSliceAdditionalSpecFns};

verus! {

/// One end of a range of allowed values.
#[derive(Debug, Clone, Copy, PartialEq, Eq, Structural)]
pub enum RangeBound {
    /// The end value is allowed.
    Included(i64),
    /// The end value is not allowed.
    Excluded(i64),
    /// There is no end on this side.
    Unbounded,
}

/// The `i64` whose two's-complement bit pattern is `bits`.
pub open spec fn spec_i64_from_bits(bits: u64) -> int {
    if bits <= i64::MAX {
        bits as int
    } else {
        bits as int - 0x1_0000_0000_0000_0000
    }
}

/// Reads the bit pattern `bits` as an `i64`.
pub fn i64_from_bits(bits: u64) -> (r: i64)
    ensures
        r == spec_i64_from_bits(bits),
{
    if bits <= i64::MAX as u64 {
        bits as i64
    } else {
        let below: u64 = u64::MAX - bits;
        -(below as i64) - 1
    }
}

/// The gap between neighbouring `f64` values around the magnitude `m`, for
/// whole numbers: one below 2^53, doubling with each further bit.
pub open spec fn spec_ulp(m: nat) -> nat
    decreases m,
{
    if m < 0x20_0000_0000_0000 {
        1
    } else {
        2 * spec_ulp(m / 2)
    }
}

/// The magnitude `m` rounded to the nearest `f64`, ties to even.
pub open spec fn spec_round_magnitude(m: nat) -> int {
    let u = spec_ulp(m);
    let q = m / u;
    let r = m % u;
    if r * 2 > u || (r * 2 == u && q % 2 == 1) {
        ((q + 1) * u) as int
    } else {
        (q * u) as int
    }
}

/// The gap below the `f64` value `x`: half the gap above at a power of two
/// from 2^53 on, the gap above otherwise.
pub open spec fn spec_gap_below(x: nat) -> nat {
    let u = spec_ulp(x);
    if x >= 0x20_0000_0000_0000 && x / u == 0x10_0000_0000_0000 {
        u / 2
    } else {
        u
    }
}

/// Whether `y` reads back as the `f64` value `x`: it lies within half a gap
/// of `x`, the bounds included when `x` has an even mantissa.
pub open spec fn spec_reads_back(x: nat, y: int) -> bool {
    let up = spec_ulp(x);
    let down = spec_gap_below(x);
    let even = (x / up) % 2 == 0;
    if y <= x {
        2 * (x - y) < down || (even && 2 * (x - y) == down)
    } else {
        2 * (y - x) < up || (even && 2 * (y - x) == up)
    }
}

/// The multiple of `p` next to `x` that reads back as `x`, the nearer one
/// when both do.
pub open spec fn spec_pick(x: nat, p: nat) -> Option<int> {
    let c1 = ((x / p) * p) as int;
    let c2 = c1 + p;
    let in1 = spec_reads_back(x, c1);
    let in2 = spec_reads_back(x, c2);
    if in1 && in2 {
        if x - c1 <= c2 - x { Some(c1) } else { Some(c2) }
    } else if in1 {
        Some(c1)
    } else if in2 {
        Some(c2)
    } else {
        None
    }
}

/// The whole number with the fewest significant digits that reads back as
/// the `f64` value `x`, the nearest to `x` among those: how `x` is
/// displayed. Between neighbouring `f64` values of this size lie fewer than
/// ten thousand whole numbers.
pub open spec fn spec_shortest(x: nat) -> int {
    match spec_pick(x, 10000) {
        Some(y) => y,
        None => match spec_pick(x, 1000) {
            Some(y) => y,
            None => match spec_pick(x, 100) {
                Some(y) => y,
                None => match spec_pick(x, 10) {
                    Some(y) => y,
                    None => x as int,
                },
            },
        },
    }
}

/// The number that `n as f64` is displayed as: `n` rounded to the nearest
/// `f64`, shown with the fewest digits that read back as it. A range end is
/// shown as this number.
#[verifier::opaque]
pub open spec fn spec_f64_value(n: int) -> int {
    if n < 0 {
        -spec_shortest(spec_round_magnitude((-n) as nat) as nat)
    } else {
        spec_shortest(spec_round_magnitude(n as nat) as nat)
    }
}

/// The gap between neighbouring `f64` values around the magnitude `m`.
fn ulp(m: u128) -> (u: u128)
    requires
        m <= 0x1_0000_0000_0000_0000,
    ensures
        u == spec_ulp(m as nat),
        1 <= u <= 0x1000,
{
    let mut u: u128 = 1;
    let mut t: u128 = m;
    while t >= 0x20_0000_0000_0000
        invariant
            m <= 0x1_0000_0000_0000_0000,
            1 <= u <= 0x1000,
            t == m / u,
            spec_ulp(m as nat) == u * spec_ulp(t as nat),
        decreases t,
    {
        proof {
            assert(u <= 0x800) by (nonlinear_arith)
                requires
                    t == m / u,
                    t >= 0x20_0000_0000_0000,
                    m <= 0x1_0000_0000_0000_0000,
                    u >= 1,
            ;
            vstd::arithmetic::div_mod::lemma_div_denominator(m as int, u as int, 2);
            assert(u * spec_ulp(t as nat) == (2 * u) * spec_ulp((t / 2) as nat)) by (nonlinear_arith)
                requires
                    spec_ulp(t as nat) == 2 * spec_ulp((t / 2) as nat),
            ;
        }
        t = t / 2;
        u = u * 2;
    }
    proof {
        let one = spec_ulp(t as nat);
        assert(one == 1);
        assert(u * one == u) by (nonlinear_arith)
            requires
                one == 1,
        ;
    }
    u
}

fn reads_back(x: u128, y: u128, up: u128, down: u128, even: bool) -> (r: bool)
    requires
        x <= 0x1_0000_0000_0000_0000,
        y <= 0x2_0000_0000_0000_0000,
        up == spec_ulp(x as nat),
        down == spec_gap_below(x as nat),
        even == ((x / up) % 2 == 0),
    ensures
        r == spec_reads_back(x as nat, y as int),
{
    if y <= x {
        2 * (x - y) < down || (even && 2 * (x - y) == down)
    } else {
        2 * (y - x) < up || (even && 2 * (y - x) == up)
    }
}

fn pick(x: u128, p: u128, up: u128, down: u128, even: bool) -> (r: Option<u128>)
    requires
        x <= 0x1_0000_0000_0000_0000,
        1 <= p <= 10000,
        up == spec_ulp(x as nat),
        down == spec_gap_below(x as nat),
        even == ((x / up) % 2 == 0),
    ensures
        match spec_pick(x as nat, p as nat) {
            Some(y) => r == Some(y as u128) && 0 <= y <= 0x2_0000_0000_0000_0000,
            None => r is None,
        },
{
    let c1 = (x / p) * p;
    proof {
        assert(c1 <= x) by (nonlinear_arith)
            requires
                c1 == (x / p) * p,
                p >= 1,
        ;
    }
    let c2 = c1 + p;
    let in1 = reads_back(x, c1, up, down, even);
    let in2 = reads_back(x, c2, up, down, even);
    if in1 && in2 {
        if x - c1 <= c2 - x { Some(c1) } else { Some(c2) }
    } else if in1 {
        Some(c1)
    } else if in2 {
        Some(c2)
    } else {
        None
    }
}

/// The number that `n as f64` is displayed as.
pub fn f64_value(n: i64) -> (r: i128)
    ensures
        r == spec_f64_value(n as int),
        r > i128::MIN,
{
    proof {
        reveal(spec_f64_value);
    }
    let m: u128 = if n < 0 { (-(n as i128)) as u128 } else { n as u128 };
    let u = ulp(m);
    let q = m / u;
    let rem = m % u;
    proof {
        assert(q * u <= m && (q + 1) * u <= m + u) by (nonlinear_arith)
            requires
                q == m / u,
                u >= 1,
        ;
        assert(m as nat == (if n < 0 { -n } else { n as int }));
    }
    let x: u128 = if rem * 2 > u || (rem * 2 == u && q % 2 == 1) { (q + 1) * u } else { q * u };
    let up = ulp(x);
    let down = if x >= 0x20_0000_0000_0000 && x / up == 0x10_0000_0000_0000 { up / 2 } else { up };
    let even = (x / up) % 2 == 0;
    let shown: u128 = match pick(x, 10000, up, down, even) {
        Some(y) => y,
        None => match pick(x, 1000, up, down, even) {
            Some(y) => y,
            None => match pick(x, 100, up, down, even) {
                Some(y) => y,
                None => match pick(x, 10, up, down, even) {
                    Some(y) => y,
                    None => x,
                },
            },
        },
    };
    if n < 0 {
        -(shown as i128)
    } else {
        shown as i128
    }
}

/// The text of the lower end of a range: `[min, `, `(min, ` or `(-∞, `.
pub open spec fn spec_format_lower(b: RangeBound) -> Seq<char> {
    match b {
        RangeBound::Included(min) => "["@ + decimal(spec_f64_value(min as int)) + ", "@,
        RangeBound::Excluded(min) => "("@ + decimal(spec_f64_value(min as int)) + ", "@,
        RangeBound::Unbounded => "(-∞, "@,
    }
}

/// The text of the upper end of a range: `max]`, `max)` or `∞)`.
pub open spec fn spec_format_upper(b: RangeBound) -> Seq<char> {
    match b {
        RangeBound::Included(max) => decimal(spec_f64_value(max as int)) + "]"@,
        RangeBound::Excluded(max) => decimal(spec_f64_value(max as int)) + ")"@,
        RangeBound::Unbounded => "∞)"@,
    }
}

/// The text of a range in interval notation, such as `[0, 10)` or `(-∞, 5]`.
pub open spec fn spec_format_range(r: (RangeBound, RangeBound)) -> Seq<char> {
    spec_format_lower(r.0) + spec_format_upper(r.1)
}

/// A range of allowed values, given by its two ends.
pub trait ValidateRange {
    /// The lower and upper end of the range.
    spec fn spec_range() -> (RangeBound, RangeBound);

    /// The lower and upper end of the range.
    fn get_range() -> (r: (RangeBound, RangeBound))
        ensures
            r == Self::spec_range(),
    ;

    /// The range in interval notation, such as `[0, 10)` or `(-∞, 5]`.
    fn format_range() -> (r: String)
        ensures
            r@ == spec_format_range(Self::spec_range()),
    {
        let range = Self::get_range();
        let mut w = String::new();
        match range.0 {
            RangeBound::Included(min) => {
                w.append("[");
                push_decimal(&mut w, f64_value(min));
                w.append(", ");
            },
            RangeBound::Excluded(min) => {
                w.append("(");
                push_decimal(&mut w, f64_value(min));
                w.append(", ");
            },
            RangeBound::Unbounded => {
                w.append("(-∞, ");
            },
        }
        match range.1 {
            RangeBound::Included(max) => {
                push_decimal(&mut w, f64_value(max));
                w.append("]");
            },
            RangeBound::Excluded(max) => {
                push_decimal(&mut w, f64_value(max));
                w.append(")");
            },
            RangeBound::Unbounded => {
                w.append("∞)");
            },
        }
        assert(w@ =~= spec_format_range(range));
        w
    }
}

/// The range `MIN..=MAX`. The bounds are `i64` values given by their
/// two's-complement bit patterns, so a non-negative bound is written as itself.
pub struct ConstRangeInclusive<const MIN: u64, const MAX: u64>;

/// The values in `MIN..=MAX`.
pub type InConstRangeInclusive<const MIN: u64, const MAX: u64> = InRange<ConstRangeInclusive<MIN, MAX>>;

impl<const MIN: u64, const MAX: u64> ValidateRange for ConstRangeInclusive<MIN, MAX> {
    open spec fn spec_range() -> (RangeBound, RangeBound) {
        (
            RangeBound::Included(spec_i64_from_bits(MIN) as i64),
            RangeBound::Included(spec_i64_from_bits(MAX) as i64),
        )
    }

    fn get_range() -> (r: (RangeBound, RangeBound)) {
        (RangeBound::Included(i64_from_bits(MIN)), RangeBound::Included(i64_from_bits(MAX)))
    }
}

/// The range of values from `MIN` upwards, `MIN` included. The bound is an
/// `i64` given by its two's-complement bit pattern.
pub struct ConstOpenInclusiveMinRange<const MIN: u64>;

/// The values of at least `MIN`.
pub type AtLeast<const MIN: u64> = InRange<ConstOpenInclusiveMinRange<MIN>>;

impl<const MIN: u64> ValidateRange for ConstOpenInclusiveMinRange<MIN> {
    open spec fn spec_range() -> (RangeBound, RangeBound) {
        (RangeBound::Included(spec_i64_from_bits(MIN) as i64), RangeBound::Unbounded)
    }

    fn get_range() -> (r: (RangeBound, RangeBound)) {
        (RangeBound::Included(i64_from_bits(MIN)), RangeBound::Unbounded)
    }
}

/// The range of values above `MIN`, `MIN` excluded. The bound is an `i64`
/// given by its two's-complement bit pattern.
pub struct ConstOpenExclusiveMinRange<const MIN: u64>;

/// The values greater than `MIN`.
pub type AtLeastExclusive<const MIN: u64> = InRange<ConstOpenExclusiveMinRange<MIN>>;

impl<const MIN: u64> ValidateRange for ConstOpenExclusiveMinRange<MIN> {
    open spec fn spec_range() -> (RangeBound, RangeBound) {
        (RangeBound::Excluded(spec_i64_from_bits(MIN) as i64), RangeBound::Unbounded)
    }

    fn get_range() -> (r: (RangeBound, RangeBound)) {
        (RangeBound::Excluded(i64_from_bits(MIN)), RangeBound::Unbounded)
    }
}

/// The check that a value lies in the range `R`.
pub struct InRange<R>(PhantomData<R>);

/// An integer type whose every value is exactly representable as an `f64`,
/// so that comparing its values with range ends is exact.
pub trait ExactInF64: PrimInt {
    /// The values of the type stay within 32 bits.
    proof fn lemma_narrow(self)
        ensures
            -0x8000_0000 <= self.spec_int() <= 0xffff_ffff,
    ;
}

impl ExactInF64 for u8 {
    proof fn lemma_narrow(self) {}
}

impl ExactInF64 for u16 {
    proof fn lemma_narrow(self) {}
}

impl ExactInF64 for u32 {
    proof fn lemma_narrow(self) {}
}

impl ExactInF64 for i8 {
    proof fn lemma_narrow(self) {}
}

impl ExactInF64 for i16 {
    proof fn lemma_narrow(self) {}
}

impl ExactInF64 for i32 {
    proof fn lemma_narrow(self) {}
}

/// The message for a value below an included lower end.
pub open spec fn msg_at_least(min: int, v: int) -> Seq<char> {
    "Value must be at least "@ + decimal(min) + ", but got: "@ + decimal(v)
}

/// The message for a value not above an excluded lower end.
pub open spec fn msg_greater_than(min: int, v: int) -> Seq<char> {
    "Value must be greater than "@ + decimal(min) + ", but got: "@ + decimal(v)
}

/// The message for a value above an included upper end.
pub open spec fn msg_at_most(max: int, v: int) -> Seq<char> {
    "Value must be at most "@ + decimal(max) + ", but got: "@ + decimal(v)
}

/// The message for a value not below an excluded upper end.
pub open spec fn msg_less_than(max: int, v: int) -> Seq<char> {
    "Value must be less than "@ + decimal(max) + ", but got: "@ + decimal(v)
}

/// The check of `v` against the upper end `b`.
pub open spec fn spec_check_upper(b: RangeBound, v: int) -> Result<(), Seq<char>> {
    match b {
        RangeBound::Included(max) => if v > max { Err(msg_at_most(spec_f64_value(max as int), v)) } else { Ok(()) },
        RangeBound::Excluded(max) => if v >= max { Err(msg_less_than(spec_f64_value(max as int), v)) } else { Ok(()) },
        RangeBound::Unbounded => Ok(()),
    }
}

/// The check of `v` against the range `r`: the lower end first, then the upper end.
pub open spec fn spec_check_range(r: (RangeBound, RangeBound), v: int) -> Result<(), Seq<char>> {
    match r.0 {
        RangeBound::Included(min) => if v < min {
            Err(msg_at_least(spec_f64_value(min as int), v))
        } else {
            spec_check_upper(r.1, v)
        },
        RangeBound::Excluded(min) => if v <= min {
            Err(msg_greater_than(spec_f64_value(min as int), v))
        } else {
            spec_check_upper(r.1, v)
        },
        RangeBound::Unbounded => spec_check_upper(r.1, v),
    }
}

fn range_message(prefix: &str, bound: i64, v: i128) -> (r: String)
    requires
        v > i128::MIN,
    ensures
        r@ == prefix@ + decimal(spec_f64_value(bound as int)) + ", but got: "@ + decimal(v as int),
{
    let mut s = String::from_str(prefix);
    push_decimal(&mut s, f64_value(bound));
    s.append(", but got: ");
    push_decimal(&mut s, v);
    s
}

impl<T: ExactInF64, R: ValidateRange> ValueValidator<T> for InRange<R> {
    open spec fn spec_check(value: T) -> Result<(), Seq<char>> {
        spec_check_range(R::spec_range(), value.spec_int())
    }

    open spec fn spec_debug() -> Seq<char> {
        "InRange<"@ + spec_format_range(R::spec_range()) + ">"@
    }

    open spec fn spec_schema_name() -> Seq<char> {
        "InRange"@ + spec_format_range(R::spec_range())
    }

    fn validate(value: &T) -> (r: Result<(), String>) {
        proof {
            value.lemma_narrow();
        }
        let (min, max) = R::get_range();
        let v = value.to_i128();
        match min {
            RangeBound::Included(min) => {
                if v < min as i128 {
                    return Err(range_message("Value must be at least ", min, v));
                }
            },
            RangeBound::Excluded(min) => {
                if v <= min as i128 {
                    return Err(range_message("Value must be greater than ", min, v));
                }
            },
            RangeBound::Unbounded => {},
        }
        match max {
            RangeBound::Included(max) => {
                if v > max as i128 {
                    return Err(range_message("Value must be at most ", max, v));
                }
            },
            RangeBound::Excluded(max) => {
                if v >= max as i128 {
                    return Err(range_message("Value must be less than ", max, v));
                }
            },
            RangeBound::Unbounded => {},
        }
        Ok(())
    }

    fn debug() -> (r: String) {
        let mut s = String::from_str("InRange<");
        let range = R::format_range();
        s.append(range.as_str());
        s.append(">");
        s
    }

    fn schema_name() -> (r: String) {
        let mut s = String::from_str("InRange");
        let range = R::format_range();
        s.append(range.as_str());
        s
    }
}

/// A numeric keyword of a JSON schema, with its bound.
#[derive(Debug, Clone, Copy, PartialEq, Eq, Structural)]
pub enum SchemaBound {
    Minimum(i64),
    ExclusiveMinimum(i64),
    Maximum(i64),
    ExclusiveMaximum(i64),
}

/// The UTF-8 bytes of the schema types that take numeric bounds: `number`
/// and `integer`.
pub open spec fn spec_is_numeric_type(t: Seq<u8>) -> bool {
    t == seq![110u8, 117u8, 109u8, 98u8, 101u8, 114u8]
        || t == seq![105u8, 110u8, 116u8, 101u8, 103u8, 101u8, 114u8]
}

/// The keywords that express the range `r` in a schema of a numeric type,
/// lower end first; a schema of another type, or without a type, gets none.
pub open spec fn spec_schema_bounds(numeric: bool, r: (RangeBound, RangeBound)) -> Seq<SchemaBound> {
    if !numeric {
        Seq::empty()
    } else {
        let lower = match r.0 {
            RangeBound::Included(m) => seq![SchemaBound::Minimum(m)],
            RangeBound::Excluded(m) => seq![SchemaBound::ExclusiveMinimum(m)],
            RangeBound::Unbounded => Seq::empty(),
        };
        let upper = match r.1 {
            RangeBound::Included(m) => seq![SchemaBound::Maximum(m)],
            RangeBound::Excluded(m) => seq![SchemaBound::ExclusiveMaximum(m)],
            RangeBound::Unbounded => Seq::empty(),
        };
        lower + upper
    }
}

fn bytes_are(a: &[u8], b: &[u8]) -> (r: bool)
    ensures
        r <==> a@ == b@,
{
    if a.len() != b.len() {
        return false;
    }
    let mut i: usize = 0;
    while i < a.len()
        invariant
            a@.len() == b@.len(),
            0 <= i <= a.len(),
            forall|j: int| 0 <= j < i ==> a@[j] == b@[j],
        decreases a.len() - i,
    {
        if a[i] != b[i] {
            return false;
        }
        i = i + 1;
    }
    assert(a@ =~= b@);
    true
}

/// Whether a schema type takes numeric bounds: `number` or `integer`.
pub fn is_numeric_type(t: &str) -> (r: bool)
    ensures
        r == spec_is_numeric_type(t.spec_bytes()),
{
    let number: Vec<u8> = vec![110u8, 117u8, 109u8, 98u8, 101u8, 114u8];
    let integer: Vec<u8> = vec![105u8, 110u8, 116u8, 101u8, 103u8, 101u8, 114u8];
    assert(number@ =~= seq![110u8, 117u8, 109u8, 98u8, 101u8, 114u8]);
    assert(integer@ =~= seq![105u8, 110u8, 116u8, 101u8, 103u8, 101u8, 114u8]);
    let bytes = t.as_bytes();
    bytes_are(bytes, number.as_slice()) || bytes_are(bytes, integer.as_slice())
}

impl<R: ValidateRange> InRange<R> {
    /// The keywords to add to a schema whose `type` is `schema_type`, so
    /// that it admits only values in the range `R`.
    pub fn schema_bounds(schema_type: Option<&str>) -> (r: Vec<SchemaBound>)
        ensures
            r@ == spec_schema_bounds(
                match schema_type {
                    Some(t) => spec_is_numeric_type(t.spec_bytes()),
                    None => false,
                },
                R::spec_range(),
            ),
    {
        let numeric = match schema_type {
            Some(t) => is_numeric_type(t),
            None => false,
        };
        let mut out: Vec<SchemaBound> = Vec::new();
        if !numeric {
            assert(out@ =~= Seq::<SchemaBound>::empty());
            return out;
        }
        let (min, max) = R::get_range();
        match min {
            RangeBound::Included(m) => out.push(SchemaBound::Minimum(m)),
            RangeBound::Excluded(m) => out.push(SchemaBound::ExclusiveMinimum(m)),
            RangeBound::Unbounded => {},
        }
        match max {
            RangeBound::Included(m) => out.push(SchemaBound::Maximum(m)),
            RangeBound::Excluded(m) => out.push(SchemaBound::ExclusiveMaximum(m)),
            RangeBound::Unbounded => {},
        }
        assert(out@ =~= spec_schema_bounds(true, (min, max)));
        out
    }
}

/// A value passes the check of a range exactly when it lies inside the
/// range: at or above an included lower end, above an excluded one, at or
/// below an included upper end, below an excluded one. A value outside gets
/// the message of the first end it violates, the lower end first.
pub proof fn law_range_check(r: (RangeBound, RangeBound), v: int)
    ensures
        spec_check_range(r, v) is Ok <==> ((match r.0 {
            RangeBound::Included(m) => m <= v,
            RangeBound::Excluded(m) => m < v,
            RangeBound::Unbounded => true,
        }) && (match r.1 {
            RangeBound::Included(m) => v <= m,
            RangeBound::Excluded(m) => v < m,
            RangeBound::Unbounded => true,
        })),
        r.0 matches RangeBound::Included(m) ==> v < m ==> spec_check_range(r, v) == Err::<(), Seq<char>>(
            msg_at_least(spec_f64_value(m as int), v),
        ),
        r.0 matches RangeBound::Excluded(m) ==> v <= m ==> spec_check_range(r, v) == Err::<(), Seq<char>>(
            msg_greater_than(spec_f64_value(m as int), v),
        ),
        (match r.0 {
            RangeBound::Included(m) => m <= v,
            RangeBound::Excluded(m) => m < v,
            RangeBound::Unbounded => true,
        }) ==> (r.1 matches RangeBound::Included(m) ==> v > m ==> spec_check_range(r, v) == Err::<
            (),
            Seq<char>,
        >(msg_at_most(spec_f64_value(m as int), v))),
        (match r.0 {
            RangeBound::Included(m) => m <= v,
            RangeBound::Excluded(m) => m < v,
            RangeBound::Unbounded => true,
        }) ==> (r.1 matches RangeBound::Excluded(m) ==> v >= m ==> spec_check_range(r, v) == Err::<
            (),
            Seq<char>,
        >(msg_less_than(spec_f64_value(m as int), v))),
{
}

/// A value of an exactly representable integer type passes `InRange<R>`
/// exactly when it lies inside the range that `R` describes.
pub proof fn law_in_range_check<T: ExactInF64, R: ValidateRange>(value: T)
    ensures
        <InRange<R> as ValueValidator<T>>::spec_check(value) is Ok <==> ((match R::spec_range().0 {
            RangeBound::Included(m) => m <= value.spec_int(),
            RangeBound::Excluded(m) => m < value.spec_int(),
            RangeBound::Unbounded => true,
        }) && (match R::spec_range().1 {
            RangeBound::Included(m) => value.spec_int() <= m,
            RangeBound::Excluded(m) => value.spec_int() < m,
            RangeBound::Unbounded => true,
        })),
{
    law_range_check(R::spec_range(), value.spec_int());
}


} // verus!
