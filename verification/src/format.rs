//! Decimal rendering of metric values and assembly of the canonical
//! wire-format line `"{prefix}.{key}:{value}|{suffix}"`.

use vstd::prelude::*;
use vstd::string::StringExecFns;

verus! {

/// The character for a single decimal digit.
pub open spec fn spec_digit(d: nat) -> char {
    if d == 0 {
        '0'
    } else if d == 1 {
        '1'
    } else if d == 2 {
        '2'
    } else if d == 3 {
        '3'
    } else if d == 4 {
        '4'
    } else if d == 5 {
        '5'
    } else if d == 6 {
        '6'
    } else if d == 7 {
        '7'
    } else if d == 8 {
        '8'
    } else {
        '9'
    }
}

/// The decimal digit string of a natural number, most significant digit first.
pub open spec fn spec_dec(n: nat) -> Seq<char>
    decreases n,
{
    if n < 10 {
        seq![spec_digit(n)]
    } else {
        spec_dec(n / 10) + seq![spec_digit(n % 10)]
    }
}

/// The decimal string of a signed number: a leading minus sign when negative.
pub open spec fn spec_dec_i64(v: int) -> Seq<char> {
    if v >= 0 {
        spec_dec(v as nat)
    } else {
        seq!['-'] + spec_dec((-v) as nat)
    }
}

/// The canonical wire line: prefix and key joined by a period, then the
/// rendered value and the kind suffix.
pub open spec fn metric_line(
    prefix: Seq<char>,
    key: Seq<char>,
    value: Seq<char>,
    suffix: Seq<char>,
) -> Seq<char> {
    prefix + seq!['.'] + key + seq![':'] + value + seq!['|'] + suffix
}

fn digit_str(d: u64) -> (r: &'static str)
    requires
        d < 10,
    ensures
        r@ == seq![spec_digit(d as nat)],
{
    match d {
        0 => {
            proof {
                reveal_strlit("0");
                assert("0"@ =~= seq!['0']);
            }
            "0"
        },
        1 => {
            proof {
                reveal_strlit("1");
                assert("1"@ =~= seq!['1']);
            }
            "1"
        },
        2 => {
            proof {
                reveal_strlit("2");
                assert("2"@ =~= seq!['2']);
            }
            "2"
        },
        3 => {
            proof {
                reveal_strlit("3");
                assert("3"@ =~= seq!['3']);
            }
            "3"
        },
        4 => {
            proof {
                reveal_strlit("4");
                assert("4"@ =~= seq!['4']);
            }
            "4"
        },
        5 => {
            proof {
                reveal_strlit("5");
                assert("5"@ =~= seq!['5']);
            }
            "5"
        },
        6 => {
            proof {
                reveal_strlit("6");
                assert("6"@ =~= seq!['6']);
            }
            "6"
        },
        7 => {
            proof {
                reveal_strlit("7");
                assert("7"@ =~= seq!['7']);
            }
            "7"
        },
        8 => {
            proof {
                reveal_strlit("8");
                assert("8"@ =~= seq!['8']);
            }
            "8"
        },
        _ => {
            proof {
                reveal_strlit("9");
                assert("9"@ =~= seq!['9']);
            }
            "9"
        },
    }
}

/// Render an unsigned value as its decimal digit string.
pub fn u64_to_dec(n: u64) -> (r: String)
    ensures
        r@ == spec_dec(n as nat),
    decreases n,
{
    if n < 10 {
        String::from_str(digit_str(n))
    } else {
        let mut s = u64_to_dec(n / 10);
        s.append(digit_str(n % 10));
        s
    }
}

/// Render a signed value as its decimal digit string, sign included.
pub fn i64_to_dec(v: i64) -> (r: String)
    ensures
        r@ == spec_dec_i64(v as int),
{
    if v >= 0 {
        u64_to_dec(v as u64)
    } else {
        let mag: u64 = (-(v as i128)) as u64;
        proof {
            assert(mag == -(v as int));
        }
        let mut s = String::from_str("-");
        let digits = u64_to_dec(mag);
        s.append(digits.as_str());
        proof {
            reveal_strlit("-");
            assert("-"@ =~= seq!['-']);
        }
        s
    }
}

/// Assemble the canonical line from its four parts.
pub(crate) fn format_metric(prefix: &str, key: &str, value: &str, suffix: &str) -> (r: String)
    ensures
        r@ == metric_line(prefix@, key@, value@, suffix@),
{
    let mut s = String::from_str(prefix);
    s.append(".");
    s.append(key);
    s.append(":");
    s.append(value);
    s.append("|");
    s.append(suffix);
    proof {
        reveal_strlit(".");
        reveal_strlit(":");
        reveal_strlit("|");
        assert("."@ =~= seq!['.']);
        assert(":"@ =~= seq![':']);
        assert("|"@ =~= seq!['|']);
        assert(s@ =~= metric_line(prefix@, key@, value@, suffix@));
    }
    s
}

} // verus!
