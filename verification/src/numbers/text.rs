use vstd::prelude::*;
use vstd::string::StringExecFns;

verus! {

/// The decimal digit character for `d`, which must be below ten.
pub open spec fn digit_char(d: nat) -> char {
    if d == 0 { '0' }
    else if d == 1 { '1' }
    else if d == 2 { '2' }
    else if d == 3 { '3' }
    else if d == 4 { '4' }
    else if d == 5 { '5' }
    else if d == 6 { '6' }
    else if d == 7 { '7' }
    else if d == 8 { '8' }
    else { '9' }
}

/// The decimal digits of a natural number, without leading zeros.
pub open spec fn decimal_nat(n: nat) -> Seq<char>
    decreases n,
{
    if n < 10 {
        seq![digit_char(n)]
    } else {
        decimal_nat(n / 10).push(digit_char(n % 10))
    }
}

/// The decimal representation of an integer, with a leading `-` when it is negative.
pub open spec fn decimal(n: int) -> Seq<char> {
    if n < 0 {
        seq!['-'] + decimal_nat((-n) as nat)
    } else {
        decimal_nat(n as nat)
    }
}

/// The number that a sequence of decimal digit characters writes, most
/// significant digit first.
pub open spec fn digits_value(s: Seq<char>) -> int
    decreases s.len(),
{
    if s.len() == 0 {
        0
    } else {
        10 * digits_value(s.drop_last()) + (s.last() as int - '0' as int)
    }
}

/// The decimal digits of a natural number are at least one character from
/// `'0'` to `'9'`, start with `'0'` only for zero, and read back as the number.
pub proof fn law_decimal_nat_reads_back(n: nat)
    ensures
        decimal_nat(n).len() >= 1,
        forall|i: int|
            0 <= i < decimal_nat(n).len() ==> '0' as int <= #[trigger] decimal_nat(n)[i] as int
                <= '9' as int,
        decimal_nat(n)[0] == '0' ==> n == 0,
        digits_value(decimal_nat(n)) == n,
    decreases n,
{
    if n >= 10 {
        law_decimal_nat_reads_back(n / 10);
        let t = decimal_nat(n / 10);
        assert(decimal_nat(n) == t.push(digit_char(n % 10)));
        assert(decimal_nat(n).drop_last() =~= t);
        assert forall|i: int| 0 <= i < decimal_nat(n).len() implies '0' as int
            <= #[trigger] decimal_nat(n)[i] as int <= '9' as int by {
            if i < t.len() {
                assert(decimal_nat(n)[i] == t[i]);
            }
        }
        assert(decimal_nat(n)[0] == t[0]);
        assert(digit_char(n % 10) as int == '0' as int + n % 10);
        assert(10 * (n / 10) + n % 10 == n);
    } else {
        assert(decimal_nat(n).drop_last() =~= Seq::<char>::empty());
        assert(digits_value(Seq::<char>::empty()) == 0);
        assert(digit_char(n) as int == '0' as int + n);
    }
}

/// The decimal text of an integer is `-` followed by the digits of its
/// magnitude when it is negative, and the digits of the integer otherwise;
/// the digits read back as the magnitude.
pub proof fn law_decimal_reads_back(n: int)
    ensures
        n < 0 ==> decimal(n)[0] == '-' && digits_value(decimal(n).drop_first()) == -n,
        n >= 0 ==> digits_value(decimal(n)) == n && decimal(n)[0] != '-',
{
    if n < 0 {
        law_decimal_nat_reads_back((-n) as nat);
        assert(decimal(n).drop_first() =~= decimal_nat((-n) as nat));
    } else {
        law_decimal_nat_reads_back(n as nat);
    }
}


/// Appends a character to a string (`String::push`).
#[verifier::external_body]
pub(crate) fn push_char(s: &mut String, c: char)
    ensures
        final(s)@ == old(s)@.push(c),
{
    s.push(c)
}

fn digit(d: u128) -> (c: char)
    requires
        d < 10,
    ensures
        c == digit_char(d as nat),
{
    if d == 0 { '0' }
    else if d == 1 { '1' }
    else if d == 2 { '2' }
    else if d == 3 { '3' }
    else if d == 4 { '4' }
    else if d == 5 { '5' }
    else if d == 6 { '6' }
    else if d == 7 { '7' }
    else if d == 8 { '8' }
    else { '9' }
}

fn push_decimal_nat(s: &mut String, n: u128)
    ensures
        final(s)@ == old(s)@ + decimal_nat(n as nat),
    decreases n,
{
    if n >= 10 {
        push_decimal_nat(s, n / 10);
    }
    push_char(s, digit(n % 10));
    proof {
        if n >= 10 {
            assert(final(s)@ =~= old(s)@ + decimal_nat(n as nat));
        } else {
            assert(final(s)@ =~= old(s)@ + decimal_nat(n as nat));
        }
    }
}

/// Appends the decimal representation of `n` to `s`, as integers are displayed.
pub fn push_decimal(s: &mut String, n: i128)
    ensures
        final(s)@ == old(s)@ + decimal(n as int),
{
    if n < 0 {
        s.append("-");
        proof {
            reveal_strlit("-");
        }
        let magnitude: u128 = (-(n + 1)) as u128 + 1;
        push_decimal_nat(s, magnitude);
        assert(final(s)@ =~= old(s)@ + decimal(n as int));
    } else {
        push_decimal_nat(s, n as u128);
    }
}

} // verus!
