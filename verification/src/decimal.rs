//! Decimal text for integers and for amounts counted in ten-thousandths.

use vstd::prelude::*;

verus! {

/// The character that stands for the decimal digit `d`.
pub open spec fn digit_char(d: nat) -> char {
    if d == 0 {
        '0'
    } else if d == 1 {
        '1'
    } else if d == 2 {
        '2'
    } else if d == 3 {
        '3'
    } else if d == 4 {
        '4'
    } else if d == 5 {
        '5'
    } else if d == 6 {
        '6'
    } else if d == 7 {
        '7'
    } else if d == 8 {
        '8'
    } else {
        '9'
    }
}

/// The one-character text of a decimal digit.
pub fn digit_str(d: u8) -> (s: &'static str)
    requires
        d < 10,
    ensures
        s@ == seq![digit_char(d as nat)],
{
    proof {
        reveal_strlit("0");
        reveal_strlit("1");
        reveal_strlit("2");
        reveal_strlit("3");
        reveal_strlit("4");
        reveal_strlit("5");
        reveal_strlit("6");
        reveal_strlit("7");
        reveal_strlit("8");
        reveal_strlit("9");
    }
    let s = if d == 0 {
        "0"
    } else if d == 1 {
        "1"
    } else if d == 2 {
        "2"
    } else if d == 3 {
        "3"
    } else if d == 4 {
        "4"
    } else if d == 5 {
        "5"
    } else if d == 6 {
        "6"
    } else if d == 7 {
        "7"
    } else if d == 8 {
        "8"
    } else {
        "9"
    };
    assert(s@ =~= seq![digit_char(d as nat)]);
    s
}

/// The decimal digits of `n`, most significant first, without leading zeros.
pub open spec fn decimal_digits(n: nat) -> Seq<char>
    decreases n,
{
    if n < 10 {
        seq![digit_char(n)]
    } else {
        decimal_digits(n / 10).push(digit_char(n % 10))
    }
}

/// Appends the decimal digits of `n` to `out`.
pub fn push_decimal(out: &mut String, n: u128)
    ensures
        final(out)@ == old(out)@ + decimal_digits(n as nat),
    decreases n,
{
    if n >= 10 {
        push_decimal(out, n / 10);
    }
    let d: u8 = (n % 10) as u8;
    out.append(digit_str(d));
    assert(out@ =~= old(out)@ + decimal_digits(n as nat));
}

/// The decimal text of `n`.
pub fn decimal_string(n: u128) -> (s: String)
    ensures
        s@ == decimal_digits(n as nat),
{
    let mut s = String::new();
    push_decimal(&mut s, n);
    assert(s@ =~= decimal_digits(n as nat));
    s
}

/// The size of `v` without its sign.
pub open spec fn magnitude(v: int) -> nat {
    if v < 0 {
        (-v) as nat
    } else {
        v as nat
    }
}

/// The four decimal places of `f` ten-thousandths, for `f` below one unit.
pub open spec fn fraction_digits(f: nat) -> Seq<char> {
    seq![
        digit_char(f / 1000 % 10),
        digit_char(f / 100 % 10),
        digit_char(f / 10 % 10),
        digit_char(f % 10),
    ]
}

/// The text of `v` ten-thousandths as a decimal number with four places:
/// `-15000` reads `-1.5000`.
pub open spec fn fixed_text(v: int) -> Seq<char> {
    let sign = if v < 0 {
        seq!['-']
    } else {
        Seq::<char>::empty()
    };
    sign + decimal_digits(magnitude(v) / 10000) + seq!['.'] + fraction_digits(magnitude(v) % 10000)
}

/// `s` without the run of `c` at its end.
pub open spec fn trim_end(s: Seq<char>, c: char) -> Seq<char>
    decreases s.len(),
{
    if s.len() > 0 && s.last() == c {
        trim_end(s.drop_last(), c)
    } else {
        s
    }
}

/// The shortest text of `v` ten-thousandths: the text with four places
/// without its trailing zeros, and without the point where nothing follows
/// it. `15000` reads `1.5`, and `1000000` reads `100`.
pub open spec fn trimmed_text(v: nat) -> Seq<char> {
    let trimmed = trim_end(trim_end(fixed_text(v as int), '0'), '.');
    if trimmed.len() == 0 {
        seq!['0']
    } else {
        trimmed
    }
}

/// Appends the text of `v` ten-thousandths, with four decimal places, to `out`.
pub fn push_fixed(out: &mut String, v: i128)
    ensures
        final(out)@ == old(out)@ + fixed_text(v as int),
{
    let size: u128 = if v < 0 {
        (-(v + 1)) as u128 + 1
    } else {
        v as u128
    };
    assert(size == magnitude(v as int));
    if v < 0 {
        proof {
            reveal_strlit("-");
        }
        out.append("-");
    }
    push_decimal(out, size / 10000);
    proof {
        reveal_strlit(".");
    }
    out.append(".");
    let f: u128 = size % 10000;
    out.append(digit_str((f / 1000 % 10) as u8));
    out.append(digit_str((f / 100 % 10) as u8));
    out.append(digit_str((f / 10 % 10) as u8));
    out.append(digit_str((f % 10) as u8));
    assert(out@ =~= old(out)@ + fixed_text(v as int));
}

/// The last of the decimal digits of a number is no point.
proof fn lemma_decimal_digits_end(n: nat)
    ensures
        decimal_digits(n).len() > 0,
        decimal_digits(n).last() != '.',
    decreases n,
{
    if n >= 10 {
        lemma_decimal_digits_end(n / 10);
    }
}

/// A digit's character is a zero only for the digit zero.
proof fn lemma_zero_digit(d: nat)
    requires
        d < 10,
    ensures
        digit_char(d) == '0' <==> d == 0,
        digit_char(d) != '.',
{
}

/// Appends the shortest text of `v` ten-thousandths to `out`.
pub fn push_trimmed(out: &mut String, v: u64)
    ensures
        final(out)@ == old(out)@ + trimmed_text(v as nat),
{
    let whole: u64 = v / 10000;
    let f: u64 = v % 10000;
    push_decimal(out, whole as u128);
    if f != 0 {
        proof {
            reveal_strlit(".");
        }
        out.append(".");
        out.append(digit_str((f / 1000 % 10) as u8));
        if f % 1000 != 0 {
            out.append(digit_str((f / 100 % 10) as u8));
            if f % 100 != 0 {
                out.append(digit_str((f / 10 % 10) as u8));
                if f % 10 != 0 {
                    out.append(digit_str((f % 10) as u8));
                }
            }
        }
    }
    proof {
        let digits = decimal_digits(whole as nat);
        let full = fixed_text(v as int);
        lemma_decimal_digits_end(whole as nat);
        lemma_zero_digit((f / 1000 % 10) as nat);
        lemma_zero_digit((f / 100 % 10) as nat);
        lemma_zero_digit((f / 10 % 10) as nat);
        lemma_zero_digit((f % 10) as nat);
        assert(magnitude(v as int) == v);
        let d1 = digit_char((f / 1000 % 10) as nat);
        let d2 = digit_char((f / 100 % 10) as nat);
        let d3 = digit_char((f / 10 % 10) as nat);
        let d4 = digit_char((f % 10) as nat);
        let s5 = digits + seq!['.', d1, d2, d3, d4];
        let s4 = digits + seq!['.', d1, d2, d3];
        let s3 = digits + seq!['.', d1, d2];
        let s2 = digits + seq!['.', d1];
        let s1 = digits + seq!['.'];
        assert(full =~= s5);
        assert(s5.drop_last() =~= s4);
        assert(s4.drop_last() =~= s3);
        assert(s3.drop_last() =~= s2);
        assert(s2.drop_last() =~= s1);
        assert(s1.drop_last() =~= digits);
        assert(s5.last() == d4 && s4.last() == d3 && s3.last() == d2 && s2.last() == d1
            && s1.last() == '.');
        reveal_with_fuel(trim_end, 6);
        assert(trim_end(digits, '.') == digits);
        let shortest = trimmed_text(v as nat);
        if f % 10 != 0 {
            assert(shortest == s5);
        } else if f % 100 != 0 {
            assert(shortest == s4);
        } else if f % 1000 != 0 {
            assert(shortest == s3);
        } else if f != 0 {
            assert(shortest == s2);
        } else {
            assert(shortest == digits);
        }
        assert(out@ =~= old(out)@ + shortest);
    }
}

} // verus!
