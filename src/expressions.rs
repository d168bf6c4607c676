//! Blocks used as expressions.
use vstd::prelude::*;
use crate::text::{int_text, labelled_int, labelled_text, lines_of};

verus! {

/// The value of the block `x * x * x + x * x + x`.
pub open spec fn cube_square_sum(x: int) -> int {
    x * x * x + x * x + x
}

pub open spec fn block_expressions_lines() -> Seq<Seq<char>> {
    seq![
        "x is "@ + int_text(5),
        "y is "@ + int_text(cube_square_sum(5)),
        "z is "@ + "()"@,
    ]
}

/// A block whose last expression gives a value, and one whose last statement
/// ends in a semicolon and so gives the unit value.
pub fn block_expressions() -> (r: Vec<String>)
    ensures
        lines_of(r@) == block_expressions_lines(),
{
    let x: u32 = 5u32;
    let y: u32 = {
        let x_squared: u32 = x * x;
        let x_cube: u32 = x_squared * x;
        x_cube + x_squared + x
    };
    let z: () = {
        let _doubled: u32 = 2 * x;
    };
    let mut r: Vec<String> = Vec::new();
    r.push(labelled_int("x is ", x as i64));
    r.push(labelled_int("y is ", y as i64));
    r.push(labelled_text("z is ", "()"));
    assert(cube_square_sum(5) == 155);
    assert(lines_of(r@) =~= block_expressions_lines());
    r
}

} // verus!
