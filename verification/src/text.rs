//! Decimal rendering of integers, as `Display` writes them.

use vstd::prelude::*;

verus! {

/// The character of a decimal digit `d` (`0 <= d < 10`).
pub open spec fn digit_char(d: int) -> char {
    if d == 0 {
        '0'
    } else if d == 1 {
        '1'
    } else if d == 2 {
        '2'
    } else if d == 3 {
        '3'
    } else if d == 4 {
        '4'
    } else if d == 5 {
        '5'
    } else if d == 6 {
        '6'
    } else if d == 7 {
        '7'
    } else if d == 8 {
        '8'
    } else {
        '9'
    }
}

/// The decimal digits of `n`, most significant first, without leading zeros.
pub open spec fn digits(n: nat) -> Seq<char>
    decreases n,
{
    if n < 10 {
        seq![digit_char(n as int)]
    } else {
        digits(n / 10) + seq![digit_char((n % 10) as int)]
    }
}

/// The decimal text of `n`: a minus sign for a negative number, then its digits.
pub open spec fn decimal(n: int) -> Seq<char> {
    if n < 0 {
        seq!['-'] + digits((-n) as nat)
    } else {
        digits(n as nat)
    }
}

fn digit_text(d: u64) -> (s: &'static str)
    requires
        d < 10,
    ensures
        s@ == seq![digit_char(d as int)],
{
    proof {
        reveal_strlit("0");
        reveal_strlit("1");
        reveal_strlit("2");
        reveal_strlit("3");
        reveal_strlit("4");
        reveal_strlit("5");
        reveal_strlit("6");
        reveal_strlit("7");
        reveal_strlit("8");
        reveal_strlit("9");
    }
    if d == 0 {
        "0"
    } else if d == 1 {
        "1"
    } else if d == 2 {
        "2"
    } else if d == 3 {
        "3"
    } else if d == 4 {
        "4"
    } else if d == 5 {
        "5"
    } else if d == 6 {
        "6"
    } else if d == 7 {
        "7"
    } else if d == 8 {
        "8"
    } else {
        "9"
    }
}

fn push_digits(out: &mut String, n: u64)
    ensures
        final(out)@ == old(out)@ + digits(n as nat),
    decreases n,
{
    if n >= 10 {
        push_digits(out, n / 10);
    }
    out.append(digit_text(n % 10));
    proof {
        if n >= 10 {
            assert(digits(n as nat) == digits((n / 10) as nat) + seq![digit_char((n % 10) as int)]);
        }
    }
}

/// Appends the decimal text of `n` to `out`.
pub fn push_decimal(out: &mut String, n: i64)
    ensures
        final(out)@ == old(out)@ + decimal(n as int),
{
    if n < 0 {
        proof {
            reveal_strlit("-");
        }
        out.append("-");
        let magnitude: u64 = ((-(n + 1)) as u64) + 1;
        push_digits(out, magnitude);
    } else {
        push_digits(out, n as u64);
    }
}

/// The character `c` is a decimal digit.
pub open spec fn is_digit(c: char) -> bool {
    48 <= c as int && c as int <= 57
}

/// The number that a text of decimal digits denotes, most significant first.
pub open spec fn digits_value(text: Seq<char>) -> int
    decreases text.len(),
{
    if text.len() == 0 {
        0
    } else {
        digits_value(text.drop_last()) * 10 + (text.last() as int - 48)
    }
}

proof fn lemma_digits_read_back(n: nat)
    ensures
        digits(n).len() >= 1,
        forall|i: int| 0 <= i < digits(n).len() ==> is_digit(#[trigger] digits(n)[i]),
        digits_value(digits(n)) == n,
        n > 0 ==> digits(n)[0] != '0',
    decreases n,
{
    if n < 10 {
        assert(digits_value(seq![digit_char(n as int)].drop_last()) == 0) by {
            assert(seq![digit_char(n as int)].drop_last() =~= Seq::<char>::empty());
        }
    } else {
        let q = (n / 10) as nat;
        let r = n % 10;
        lemma_digits_read_back(q);
        let s = digits(q) + seq![digit_char(r as int)];
        assert(digits(n) == s);
        assert(s.drop_last() =~= digits(q));
        assert(n == q * 10 + r);
        assert forall|i: int| 0 <= i < s.len() implies is_digit(#[trigger] s[i]) by {
            if i < digits(q).len() {
                assert(s[i] == digits(q)[i]);
            }
        }
        assert(s[0] == digits(q)[0]);
    }
}

/// `decimal(n)` reads back as `n`: for `n >= 0` it is a nonempty text of
/// digits without a leading zero (but for `0` itself) whose value is `n`; for
/// `n < 0` it is a minus sign followed by the decimal text of `-n`.
pub proof fn law_decimal_reads_back(n: int)
    ensures
        n >= 0 ==> {
            &&& decimal(n).len() >= 1
            &&& forall|i: int| 0 <= i < decimal(n).len() ==> is_digit(#[trigger] decimal(n)[i])
            &&& digits_value(decimal(n)) == n
            &&& (decimal(n).len() > 1 ==> decimal(n)[0] != '0')
        },
        n < 0 ==> {
            &&& decimal(n).len() >= 2
            &&& decimal(n)[0] == '-'
            &&& forall|i: int| 1 <= i < decimal(n).len() ==> is_digit(#[trigger] decimal(n)[i])
            &&& digits_value(decimal(n).skip(1)) == -n
            &&& decimal(n)[1] != '0'
        },
{
    if n >= 0 {
        lemma_digits_read_back(n as nat);
        if decimal(n).len() > 1 {
            assert(n >= 10);
        }
    } else {
        let m = (-n) as nat;
        lemma_digits_read_back(m);
        let s = seq!['-'] + digits(m);
        assert(s.skip(1) =~= digits(m));
        assert forall|i: int| 1 <= i < s.len() implies is_digit(#[trigger] s[i]) by {
            assert(s[i] == digits(m)[i - 1]);
        }
        assert(s[1] == digits(m)[0]);
    }
}

} // verus!
