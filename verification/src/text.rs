//! Small text helpers used while printing generated code: decimal
//! rendering of indices and splitting a constraint list on commas.

use vstd::prelude::*;
use vstd::string::StrSliceExecFns;
use vstd::string::StringExecFns;
use crate::args::view_strings;

verus! {

/// The decimal digit character for `d` (`0 <= d <= 9`).
pub open spec fn spec_digit(d: nat) -> char {
    if d == 0 {
        '0'
    } else if d == 1 {
        '1'
    } else if d == 2 {
        '2'
    } else if d == 3 {
        '3'
    } else if d == 4 {
        '4'
    } else if d == 5 {
        '5'
    } else if d == 6 {
        '6'
    } else if d == 7 {
        '7'
    } else if d == 8 {
        '8'
    } else {
        '9'
    }
}

/// The decimal rendering of `n`, without sign or leading zeroes (but
/// `"0"` for zero itself).
pub open spec fn spec_dec(n: nat) -> Seq<char>
    decreases n,
{
    if n < 10 {
        seq![spec_digit(n)]
    } else {
        spec_dec(n / 10).push(spec_digit(n % 10))
    }
}

/// The one-character string for the decimal digit `d`.
fn digit_str(d: usize) -> (r: &'static str)
    requires
        d <= 9,
    ensures
        r@ == seq![spec_digit(d as nat)],
{
    let r = if d == 0 {
        "0"
    } else if d == 1 {
        "1"
    } else if d == 2 {
        "2"
    } else if d == 3 {
        "3"
    } else if d == 4 {
        "4"
    } else if d == 5 {
        "5"
    } else if d == 6 {
        "6"
    } else if d == 7 {
        "7"
    } else if d == 8 {
        "8"
    } else {
        "9"
    };
    proof {
        reveal_strlit("0");
        reveal_strlit("1");
        reveal_strlit("2");
        reveal_strlit("3");
        reveal_strlit("4");
        reveal_strlit("5");
        reveal_strlit("6");
        reveal_strlit("7");
        reveal_strlit("8");
        reveal_strlit("9");
        assert(r@ =~= seq![spec_digit(d as nat)]);
    }
    r
}

/// Renders `n` in decimal.
pub fn dec_str(n: usize) -> (r: String)
    ensures
        r@ == spec_dec(n as nat),
    decreases n,
{
    if n < 10 {
        digit_str(n).to_owned()
    } else {
        proof {
            assert(n / 10 < n) by (nonlinear_arith)
                requires
                    n >= 10,
            ;
        }
        let mut r = dec_str(n / 10);
        r.append(digit_str(n % 10));
        proof {
            assert(spec_dec((n / 10) as nat).push(spec_digit((n % 10) as nat)) =~= spec_dec(
                (n / 10) as nat,
            ) + seq![spec_digit((n % 10) as nat)]);
        }
        r
    }
}

/// The pieces of `s` between commas, scanned left to right from `i`,
/// with the piece currently open having begun at `start`.
pub open spec fn spec_split_from(s: Seq<char>, start: int, i: int) -> Seq<Seq<char>>
    recommends
        0 <= start <= i <= s.len(),
    decreases s.len() - i,
{
    if i >= s.len() {
        seq![s.subrange(start, s.len() as int)]
    } else if s[i] == ',' {
        seq![s.subrange(start, i)] + spec_split_from(s, i + 1, i + 1)
    } else {
        spec_split_from(s, start, i + 1)
    }
}

/// The pieces of `s` between commas.  A string without a comma is one
/// piece; every comma separates two pieces, so `",".split` gives two
/// empty pieces.
pub open spec fn spec_split_commas(s: Seq<char>) -> Seq<Seq<char>> {
    spec_split_from(s, 0, 0)
}

/// Splits `s` on commas.
pub fn split_commas(s: &str) -> (r: Vec<String>)
    ensures
        view_strings(r@) == spec_split_commas(s@),
{
    let mut out: Vec<String> = Vec::new();
    let n = s.unicode_len();
    let mut start: usize = 0;
    proof {
        assert(view_strings(out@) + spec_split_from(s@, 0, 0) =~~= spec_split_from(s@, 0, 0));
    }
    for i in 0..n
        invariant
            n == s@.len(),
            start <= i,
            spec_split_commas(s@) == view_strings(out@) + spec_split_from(
                s@,
                start as int,
                i as int,
            ),
    {
        if s.get_char(i) == ',' {
            let ghost old_start = start as int;
            let piece = s.substring_char(start, i).to_owned();
            let ghost gpiece = piece@;
            let ghost before = out@;
            out.push(piece);
            start = i + 1;
            proof {
                assert(view_strings(before.push(piece)) =~~= view_strings(before).push(gpiece));
                assert(spec_split_from(s@, old_start, i as int) == seq![s@.subrange(
                    old_start,
                    i as int,
                )] + spec_split_from(s@, i + 1, i + 1));
                assert(view_strings(before).push(gpiece) + spec_split_from(s@, i + 1, i + 1)
                    =~~= view_strings(before) + spec_split_from(s@, old_start, i as int));
            }
        }
    }
    let piece = s.substring_char(start, n).to_owned();
    let ghost gpiece = piece@;
    let ghost before = out@;
    out.push(piece);
    proof {
        assert(view_strings(before.push(piece)) =~~= view_strings(before).push(gpiece));
        assert(view_strings(before).push(gpiece) =~~= view_strings(before) + seq![s@.subrange(
            start as int,
            n as int,
        )]);
    }
    out
}

} // verus!
