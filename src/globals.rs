//! Process-wide constants read from functions.
use vstd::prelude::*;
use crate::text::{int_string, int_text, labelled_int, labelled_text, lines_of};

verus! {

/// The language's name.
pub const LANGUAGE: &'static str = "Rust";

/// Numbers above this are big.
pub const THRESHOLD: i32 = 10;

/// Whether `n` is above `THRESHOLD`.
pub fn is_big(n: i32) -> (r: bool)
    ensures
        r == (n > THRESHOLD),
{
    n > THRESHOLD
}

/// The word for a number that is or is not big.
pub open spec fn size_word(big: bool) -> Seq<char> {
    if big {
        "big"@
    } else {
        "small"@
    }
}

/// The line `n is big` or `n is small`.
pub fn size_line(n: i32) -> (r: String)
    ensures
        r@ == int_text(n as int) + " is "@ + size_word(n > THRESHOLD),
{
    let mut r = int_string(n as i64);
    r.append(" is ");
    if is_big(n) {
        r.append("big");
    } else {
        r.append("small");
    }
    r
}

pub open spec fn const_type_lines() -> Seq<Seq<char>> {
    seq![
        "This is "@ + LANGUAGE@,
        "The threshold is "@ + int_text(THRESHOLD as int),
        int_text(16) + " is "@ + size_word(16 > THRESHOLD),
    ]
}

/// The language's name, the threshold, and whether 16 is big.
pub fn const_type() -> (r: Vec<String>)
    ensures
        lines_of(r@) == const_type_lines(),
{
    let n: i32 = 16;
    let mut r: Vec<String> = Vec::new();
    r.push(labelled_text("This is ", LANGUAGE));
    r.push(labelled_int("The threshold is ", THRESHOLD as i64));
    r.push(size_line(n));
    assert(lines_of(r@) =~= const_type_lines());
    r
}

} // verus!
