//! The cube-count line shown in the scene's corner.
//!
//! The line is the literal prefix `"Cube Count: "` followed by the count in
//! decimal, with no leading zeros (a lone `0` for zero).

use crate::scene::{visible_count, visible_count_of, Cube};
use vstd::prelude::*;
use vstd::string::StringExecFns;

verus! {

/// The decimal digit character of `d`, for `d < 10`.
pub open spec fn digit_char(d: nat) -> char {
    if d == 0 {
        '0'
    } else if d == 1 {
        '1'
    } else if d == 2 {
        '2'
    } else if d == 3 {
        '3'
    } else if d == 4 {
        '4'
    } else if d == 5 {
        '5'
    } else if d == 6 {
        '6'
    } else if d == 7 {
        '7'
    } else if d == 8 {
        '8'
    } else {
        '9'
    }
}

/// The decimal rendering of `n`: most significant digit first, no leading
/// zeros, a single `'0'` for zero.
pub open spec fn spec_decimal(n: nat) -> Seq<char>
    decreases n,
{
    if n < 10 {
        seq![digit_char(n)]
    } else {
        spec_decimal(n / 10).push(digit_char(n % 10))
    }
}

/// The one-character string of the digit `d`.
fn digit_str(d: u64) -> (s: &'static str)
    requires
        d < 10,
    ensures
        s@ == seq![digit_char(d as nat)],
{
    proof {
        reveal_strlit("0");
        reveal_strlit("1");
        reveal_strlit("2");
        reveal_strlit("3");
        reveal_strlit("4");
        reveal_strlit("5");
        reveal_strlit("6");
        reveal_strlit("7");
        reveal_strlit("8");
        reveal_strlit("9");
    }
    let s: &'static str = match d {
        0 => "0",
        1 => "1",
        2 => "2",
        3 => "3",
        4 => "4",
        5 => "5",
        6 => "6",
        7 => "7",
        8 => "8",
        _ => "9",
    };
    proof {
        assert(s@ =~= seq![digit_char(d as nat)]);
    }
    s
}

/// `n` rendered in decimal.
pub fn to_decimal(n: u64) -> (s: String)
    ensures
        s@ == spec_decimal(n as nat),
    decreases n,
{
    if n < 10 {
        digit_str(n).to_owned()
    } else {
        let prefix = to_decimal(n / 10);
        let s = prefix.concat(digit_str(n % 10));
        proof {
            assert(s@ =~= spec_decimal(n as nat));
        }
        s
    }
}

/// The full count line for a given count.
pub fn cube_count_text(count: usize) -> (s: String)
    ensures
        s@ == "Cube Count: "@ + spec_decimal(count as nat),
{
    let mut s = "Cube Count: ".to_owned();
    s.append(to_decimal(count as u64).as_str());
    s
}

/// The count line for the scene as it stands: the number of cubes strictly
/// above the culling threshold, rendered after the literal prefix.
pub fn display_cube_count(cubes: &Vec<Cube>) -> (s: String)
    ensures
        s@ == "Cube Count: "@ + spec_decimal(visible_count_of(cubes@)),
{
    let count = visible_count(cubes);
    cube_count_text(count)
}

} // verus!
