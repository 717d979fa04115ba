//! Decimal rendering of integer values, used when integer-valued enum
//! members are emitted: the digits come out exactly as the canonical
//! base-ten form of the declared value, with no reformatting.

use vstd::prelude::*;

verus! {

/// The decimal digit character for `d`, which must lie in `0 ..= 9`.
pub open spec fn spec_digit(d: int) -> char {
    if d == 0 {
        '0'
    } else if d == 1 {
        '1'
    } else if d == 2 {
        '2'
    } else if d == 3 {
        '3'
    } else if d == 4 {
        '4'
    } else if d == 5 {
        '5'
    } else if d == 6 {
        '6'
    } else if d == 7 {
        '7'
    } else if d == 8 {
        '8'
    } else {
        '9'
    }
}

/// The decimal digits of `n`, most significant first.
pub open spec fn spec_nat_decimal(n: nat) -> Seq<char>
    decreases n,
{
    if n < 10 {
        seq![spec_digit(n as int)]
    } else {
        spec_nat_decimal(n / 10) + seq![spec_digit((n % 10) as int)]
    }
}

/// The decimal rendering of a signed value: a minus sign when negative,
/// then the digits of the magnitude.
pub open spec fn spec_i64_decimal(v: int) -> Seq<char> {
    if v < 0 {
        seq!['-'] + spec_nat_decimal((-v) as nat)
    } else {
        spec_nat_decimal(v as nat)
    }
}

/// The one-character text of the decimal digit `d`.
fn digit_str(d: u64) -> (r: &'static str)
    requires
        d < 10,
    ensures
        r@ == seq![spec_digit(d as int)],
{
    if d == 0 {
        proof {
            reveal_strlit("0");
            assert("0"@ =~= seq![spec_digit(0)]);
        }
        "0"
    } else if d == 1 {
        proof {
            reveal_strlit("1");
            assert("1"@ =~= seq![spec_digit(1)]);
        }
        "1"
    } else if d == 2 {
        proof {
            reveal_strlit("2");
            assert("2"@ =~= seq![spec_digit(2)]);
        }
        "2"
    } else if d == 3 {
        proof {
            reveal_strlit("3");
            assert("3"@ =~= seq![spec_digit(3)]);
        }
        "3"
    } else if d == 4 {
        proof {
            reveal_strlit("4");
            assert("4"@ =~= seq![spec_digit(4)]);
        }
        "4"
    } else if d == 5 {
        proof {
            reveal_strlit("5");
            assert("5"@ =~= seq![spec_digit(5)]);
        }
        "5"
    } else if d == 6 {
        proof {
            reveal_strlit("6");
            assert("6"@ =~= seq![spec_digit(6)]);
        }
        "6"
    } else if d == 7 {
        proof {
            reveal_strlit("7");
            assert("7"@ =~= seq![spec_digit(7)]);
        }
        "7"
    } else if d == 8 {
        proof {
            reveal_strlit("8");
            assert("8"@ =~= seq![spec_digit(8)]);
        }
        "8"
    } else {
        proof {
            reveal_strlit("9");
            assert("9"@ =~= seq![spec_digit(9)]);
        }
        "9"
    }
}

/// Renders `n` in decimal.
pub fn u64_decimal(n: u64) -> (r: String)
    ensures
        r@ == spec_nat_decimal(n as nat),
{
    let mut m: u64 = n;
    let mut tail = String::new();
    proof {
        assert(spec_nat_decimal(n as nat) =~= spec_nat_decimal(n as nat) + Seq::<char>::empty());
    }
    while m >= 10
        invariant
            spec_nat_decimal(n as nat) == spec_nat_decimal(m as nat) + tail@,
        decreases m,
    {
        let d = digit_str(m % 10);
        let next = String::from_str(d).concat(tail.as_str());
        proof {
            assert(spec_nat_decimal(m as nat) == spec_nat_decimal((m / 10) as nat) + seq![
                spec_digit((m % 10) as int),
            ]);
            assert(spec_nat_decimal((m / 10) as nat) + (seq![spec_digit((m % 10) as int)] + tail@)
                =~= (spec_nat_decimal((m / 10) as nat) + seq![spec_digit((m % 10) as int)])
                + tail@);
        }
        tail = next;
        m = m / 10;
    }
    let d = digit_str(m);
    let r = String::from_str(d).concat(tail.as_str());
    proof {
        assert(spec_nat_decimal(m as nat) == seq![spec_digit(m as int)]);
    }
    r
}

/// Renders `v` in decimal, with a leading minus sign when negative.
pub fn i64_decimal(v: i64) -> (r: String)
    ensures
        r@ == spec_i64_decimal(v as int),
{
    if v >= 0 {
        u64_decimal(v as u64)
    } else {
        let mag: u64 = if v == i64::MIN {
            9223372036854775808u64
        } else {
            (-v) as u64
        };
        proof {
            assert(mag as int == -(v as int));
        }
        let digits = u64_decimal(mag);
        let r = String::from_str("-").concat(digits.as_str());
        proof {
            reveal_strlit("-");
            assert("-"@ =~= seq!['-']);
        }
        r
    }
}

} // verus!
