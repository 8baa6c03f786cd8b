//! Text of the numbers that diagnostics carry.

use vstd::prelude::*;
use vstd::string::StringExecFns;

verus! {

/// The sixteen upper-case hexadecimal digits, by value.
pub open spec fn upper_hex_digits() -> Seq<char> {
    seq!['0', '1', '2', '3', '4', '5', '6', '7', '8', '9', 'A', 'B', 'C', 'D', 'E', 'F']
}

/// Upper-case hexadecimal text of `n`, without prefix or leading zeros.
pub open spec fn upper_hex(n: nat) -> Seq<char>
    decreases n,
{
    if n < 16 {
        seq![upper_hex_digits()[n as int]]
    } else {
        upper_hex(n / 16).push(upper_hex_digits()[(n % 16) as int])
    }
}

/// The ten decimal digits, by value.
pub open spec fn decimal_digits() -> Seq<char> {
    seq!['0', '1', '2', '3', '4', '5', '6', '7', '8', '9']
}

/// Decimal text of `n`, without leading zeros.
pub open spec fn decimal_nat(n: nat) -> Seq<char>
    decreases n,
{
    if n < 10 {
        seq![decimal_digits()[n as int]]
    } else {
        decimal_nat(n / 10).push(decimal_digits()[(n % 10) as int])
    }
}

/// Decimal text of `n`, with a minus sign in front of a negative number.
pub open spec fn decimal(n: int) -> Seq<char> {
    if n < 0 {
        seq!['-'] + decimal_nat((-n) as nat)
    } else {
        decimal_nat(n as nat)
    }
}

/// One digit below sixteen as text.
fn digit_text(d: u64) -> (s: &'static str)
    requires
        d < 16,
    ensures
        s@ == seq![upper_hex_digits()[d as int]],
{
    let s = match d {
        0 => "0",
        1 => "1",
        2 => "2",
        3 => "3",
        4 => "4",
        5 => "5",
        6 => "6",
        7 => "7",
        8 => "8",
        9 => "9",
        10 => "A",
        11 => "B",
        12 => "C",
        13 => "D",
        14 => "E",
        _ => "F",
    };
    proof {
        reveal_strlit("0");
        reveal_strlit("1");
        reveal_strlit("2");
        reveal_strlit("3");
        reveal_strlit("4");
        reveal_strlit("5");
        reveal_strlit("6");
        reveal_strlit("7");
        reveal_strlit("8");
        reveal_strlit("9");
        reveal_strlit("A");
        reveal_strlit("B");
        reveal_strlit("C");
        reveal_strlit("D");
        reveal_strlit("E");
        reveal_strlit("F");
        assert(s@ =~= seq![upper_hex_digits()[d as int]]);
    }
    s
}

/// Appends the upper-case hexadecimal text of `v` to `out`.
pub fn push_upper_hex(out: &mut String, v: u64)
    ensures
        final(out)@ == old(out)@ + upper_hex(v as nat),
    decreases v,
{
    if v >= 16 {
        push_upper_hex(out, v / 16);
    }
    out.append(digit_text(v % 16));
}

/// Appends the decimal text of `v` to `out`.
pub fn push_decimal_nat(out: &mut String, v: u64)
    ensures
        final(out)@ == old(out)@ + decimal_nat(v as nat),
    decreases v,
{
    if v >= 10 {
        push_decimal_nat(out, v / 10);
    }
    out.append(digit_text(v % 10));
}

/// Appends the decimal text of `v` to `out`, signed as `v` is.
pub fn push_decimal(out: &mut String, v: i32)
    ensures
        final(out)@ == old(out)@ + decimal(v as int),
{
    let wide: i64 = v as i64;
    if wide < 0 {
        out.append("-");
        proof {
            reveal_strlit("-");
            assert("-"@ =~= seq!['-']);
        }
        push_decimal_nat(out, (-wide) as u64);
    } else {
        push_decimal_nat(out, wide as u64);
    }
}

} // verus!
