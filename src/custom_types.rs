//! The program that shows custom types: structs, enums, a linked list and
//! constants.
use vstd::prelude::*;
use crate::enums::{enum_c_type, enum_c_type_lines, enum_type, enum_type_lines, enum_use_type, enum_use_type_lines};
use crate::globals::{const_type, const_type_lines};
use crate::list::{enum_linkedlist_type, enum_linkedlist_type_lines};
use crate::records::{struct_type, struct_type_lines};
use crate::runner::{banner, banner_lines};
use crate::text::{append_lines, lines_of};

verus! {

/// What the custom types program shows: each demonstration under its banner.
pub open spec fn custom_types_program_lines() -> Seq<Seq<char>> {
    banner_lines("struct"@) + struct_type_lines()
        + banner_lines("enum"@) + enum_type_lines()
        + banner_lines("enum_use"@) + enum_use_type_lines()
        + banner_lines("enum_c"@) + enum_c_type_lines()
        + banner_lines("enum_linkedlist"@) + enum_linkedlist_type_lines()
        + banner_lines("const"@) + const_type_lines()
}

/// Runs the custom type demonstrations in order, each under its banner.
pub fn custom_types_program() -> (r: Vec<String>)
    ensures
        lines_of(r@) == custom_types_program_lines(),
{
    let mut r: Vec<String> = Vec::new();
    assert(lines_of(r@) =~= Seq::empty());
    append_lines(&mut r, banner("struct"));
    assert(lines_of(r@) =~= banner_lines("struct"@));
    append_lines(&mut r, struct_type());
    append_lines(&mut r, banner("enum"));
    append_lines(&mut r, enum_type());
    append_lines(&mut r, banner("enum_use"));
    append_lines(&mut r, enum_use_type());
    append_lines(&mut r, banner("enum_c"));
    append_lines(&mut r, enum_c_type());
    append_lines(&mut r, banner("enum_linkedlist"));
    append_lines(&mut r, enum_linkedlist_type());
    append_lines(&mut r, banner("const"));
    append_lines(&mut r, const_type());
    r
}

} // verus!
