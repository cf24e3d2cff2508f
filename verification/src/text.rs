//! Decimal text for the numbers the engine prints.
//!
//! String materialization of integer values (and of whole float64 numbers)
//! goes through these functions; their output is pinned down digit by
//! digit.

use vstd::prelude::*;

verus! {

/// The decimal digit character for `d`.
pub open spec fn dec_digit(d: int) -> char
    recommends
        0 <= d < 10,
{
    if d == 0 {
        '0'
    } else if d == 1 {
        '1'
    } else if d == 2 {
        '2'
    } else if d == 3 {
        '3'
    } else if d == 4 {
        '4'
    } else if d == 5 {
        '5'
    } else if d == 6 {
        '6'
    } else if d == 7 {
        '7'
    } else if d == 8 {
        '8'
    } else {
        '9'
    }
}

/// The decimal digits of a natural number, most significant first.
pub open spec fn spec_udec(n: nat) -> Seq<char>
    decreases n,
{
    if n < 10 {
        seq![dec_digit(n as int)]
    } else {
        spec_udec(n / 10).push(dec_digit((n % 10) as int))
    }
}

/// The decimal text of an integer: a minus sign for negative numbers, then
/// the digits.
pub open spec fn spec_idec(n: int) -> Seq<char> {
    if n < 0 {
        seq!['-'] + spec_udec((-n) as nat)
    } else {
        spec_udec(n as nat)
    }
}

/// Append one decimal digit to `out`.
fn append_digit(out: &mut String, d: u64)
    requires
        d < 10,
    ensures
        final(out)@ == old(out)@ + seq![dec_digit(d as int)],
{
    let ghost pre = out@;
    match d {
        0 => {
            out.append("0");
            proof {
                reveal_strlit("0");
                assert(out@ =~= pre + seq![dec_digit(d as int)]);
            }
        },
        1 => {
            out.append("1");
            proof {
                reveal_strlit("1");
                assert(out@ =~= pre + seq![dec_digit(d as int)]);
            }
        },
        2 => {
            out.append("2");
            proof {
                reveal_strlit("2");
                assert(out@ =~= pre + seq![dec_digit(d as int)]);
            }
        },
        3 => {
            out.append("3");
            proof {
                reveal_strlit("3");
                assert(out@ =~= pre + seq![dec_digit(d as int)]);
            }
        },
        4 => {
            out.append("4");
            proof {
                reveal_strlit("4");
                assert(out@ =~= pre + seq![dec_digit(d as int)]);
            }
        },
        5 => {
            out.append("5");
            proof {
                reveal_strlit("5");
                assert(out@ =~= pre + seq![dec_digit(d as int)]);
            }
        },
        6 => {
            out.append("6");
            proof {
                reveal_strlit("6");
                assert(out@ =~= pre + seq![dec_digit(d as int)]);
            }
        },
        7 => {
            out.append("7");
            proof {
                reveal_strlit("7");
                assert(out@ =~= pre + seq![dec_digit(d as int)]);
            }
        },
        8 => {
            out.append("8");
            proof {
                reveal_strlit("8");
                assert(out@ =~= pre + seq![dec_digit(d as int)]);
            }
        },
        _ => {
            out.append("9");
            proof {
                reveal_strlit("9");
                assert(out@ =~= pre + seq![dec_digit(d as int)]);
            }
        },
    }
}

/// Append the decimal digits of `n` to `out`.
fn append_udec(out: &mut String, n: u64)
    ensures
        final(out)@ == old(out)@ + spec_udec(n as nat),
    decreases n,
{
    if n >= 10 {
        append_udec(out, n / 10);
        append_digit(out, n % 10);
        proof {
            assert(out@ =~= old(out)@ + spec_udec(n as nat));
        }
    } else {
        append_digit(out, n);
    }
}

/// The decimal text of an unsigned number.
pub fn u64_text(n: u64) -> (s: String)
    ensures
        s@ == spec_udec(n as nat),
{
    let mut s = String::new();
    append_udec(&mut s, n);
    proof {
        assert(s@ =~= spec_udec(n as nat));
    }
    s
}

/// The decimal text of a signed number.
pub fn i64_text(n: i64) -> (s: String)
    ensures
        s@ == spec_idec(n as int),
{
    if n >= 0 {
        u64_text(n as u64)
    } else {
        let mag: u64 = ((-(n + 1)) as u64) + 1;
        let mut s = String::new();
        s.append("-");
        append_udec(&mut s, mag);
        proof {
            reveal_strlit("-");
            assert(s@ =~= spec_idec(n as int));
        }
        s
    }
}

/// Whether two pieces of text are equal, character for character.
pub fn str_eq(a: &str, b: &str) -> (r: bool)
    ensures
        r == (a@ == b@),
{
    let sa: String = a.to_owned();
    let sb: String = b.to_owned();
    sa == sb
}

/// The decimal text of a 32-bit signed number.
pub fn i32_text(n: i32) -> (s: String)
    ensures
        s@ == spec_idec(n as int),
{
    i64_text(n as i64)
}

} // verus!
