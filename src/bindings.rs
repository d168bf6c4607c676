//! Variable bindings: copying, mutation, scope, shadowing, late
//! initialisation and freezing.
use vstd::prelude::*;
use crate::runner::{banner, banner_lines};
use crate::text::{append_lines, bool_text, int_text, labelled_bool, labelled_int, labelled_text, lines_of};

verus! {

pub open spec fn variable_binding_lines() -> Seq<Seq<char>> {
    seq![
        "An integer: "@ + int_text(1),
        "A boolean: "@ + bool_text(true),
        "Meet the unit value: "@ + "()"@,
    ]
}

/// A copied integer, a boolean and the unit value.
pub fn variable_binding() -> (r: Vec<String>)
    ensures
        lines_of(r@) == variable_binding_lines(),
{
    let an_integer: u32 = 1u32;
    let a_boolean: bool = true;
    let copied_integer: u32 = an_integer;
    let mut r: Vec<String> = Vec::new();
    r.push(labelled_int("An integer: ", copied_integer as i64));
    r.push(labelled_bool("A boolean: ", a_boolean));
    r.push(labelled_text("Meet the unit value: ", "()"));
    assert(lines_of(r@) =~= variable_binding_lines());
    r
}

pub open spec fn mutability_binding_lines() -> Seq<Seq<char>> {
    seq!["Before mutation: "@ + int_text(1), "After mutation: "@ + int_text(2)]
}

/// A mutable binding, shown before and after it is incremented.
pub fn mutability_binding() -> (r: Vec<String>)
    ensures
        lines_of(r@) == mutability_binding_lines(),
{
    let mut mutable_binding: i32 = 1;
    let mut r: Vec<String> = Vec::new();
    r.push(labelled_int("Before mutation: ", mutable_binding as i64));
    mutable_binding += 1;
    r.push(labelled_int("After mutation: ", mutable_binding as i64));
    assert(lines_of(r@) =~= mutability_binding_lines());
    r
}

pub open spec fn scope_binding_lines() -> Seq<Seq<char>> {
    seq!["inner short: "@ + int_text(2), "outer long: "@ + int_text(1)]
}

/// A binding that lives in an inner block beside one of the enclosing scope.
pub fn scope_binding() -> (r: Vec<String>)
    ensures
        lines_of(r@) == scope_binding_lines(),
{
    let long_lived_binding: i32 = 1;
    let mut r: Vec<String> = Vec::new();
    {
        let short_lived_binding: i32 = 2;
        r.push(labelled_int("inner short: ", short_lived_binding as i64));
    }
    r.push(labelled_int("outer long: ", long_lived_binding as i64));
    assert(lines_of(r@) =~= scope_binding_lines());
    r
}

pub open spec fn shadow_binding_lines() -> Seq<Seq<char>> {
    seq![
        "before being shadowed: "@ + int_text(1),
        "shadowed in inner block: "@ + "abc"@,
        "outside inner block: "@ + int_text(1),
        "shadowed in outer block: "@ + int_text(2),
    ]
}

/// A name bound again, with another type in an inner block and with another
/// value in the same scope.
pub fn shadow_binding() -> (r: Vec<String>)
    ensures
        lines_of(r@) == shadow_binding_lines(),
{
    let outer_binding: i32 = 1;
    let mut r: Vec<String> = Vec::new();
    {
        r.push(labelled_int("before being shadowed: ", outer_binding as i64));
        let inner_binding: &str = "abc";
        r.push(labelled_text("shadowed in inner block: ", inner_binding));
    }
    r.push(labelled_int("outside inner block: ", outer_binding as i64));
    let rebound_binding: i32 = 2;
    r.push(labelled_int("shadowed in outer block: ", rebound_binding as i64));
    assert(lines_of(r@) =~= shadow_binding_lines());
    r
}

pub open spec fn declare_binding_lines() -> Seq<Seq<char>> {
    seq!["a binding: "@ + int_text(12int * 12int), "another binding: "@ + int_text(1)]
}

/// Bindings declared first and initialised later.
pub fn declare_binding() -> (r: Vec<String>)
    ensures
        lines_of(r@) == declare_binding_lines(),
{
    let a_binding: i32;
    {
        let x: i32 = 12i32;
        a_binding = x * x;
    }
    let mut r: Vec<String> = Vec::new();
    r.push(labelled_int("a binding: ", a_binding as i64));
    let another_binding: i32;
    another_binding = 1;
    r.push(labelled_int("another binding: ", another_binding as i64));
    assert(lines_of(r@) =~= declare_binding_lines());
    r
}

pub open spec fn freeze_binding_lines() -> Seq<Seq<char>> {
    seq!["  frozen "@ + int_text(7), "unfrozen "@ + int_text(3)]
}

/// A mutable binding frozen by an immutable one in an inner block, then
/// assigned again once the block ends.
pub fn freeze_binding() -> (r: Vec<String>)
    ensures
        lines_of(r@) == freeze_binding_lines(),
{
    let mut mutable_integer: i32 = 7;
    let mut r: Vec<String> = Vec::new();
    {
        let frozen_integer: i32 = mutable_integer;
        r.push(labelled_int("  frozen ", frozen_integer as i64));
    }
    mutable_integer = 3;
    r.push(labelled_int("unfrozen ", mutable_integer as i64));
    assert(lines_of(r@) =~= freeze_binding_lines());
    r
}

/// What the bindings program shows: each demonstration under its banner, the
/// late-initialisation one twice.
pub open spec fn bindings_program_lines() -> Seq<Seq<char>> {
    banner_lines("variable_binding"@) + variable_binding_lines()
        + banner_lines("mutability_binding"@) + mutability_binding_lines()
        + banner_lines("scope_binding"@) + scope_binding_lines()
        + banner_lines("shadow_binding"@) + shadow_binding_lines()
        + banner_lines("declare_binding"@) + declare_binding_lines()
        + banner_lines("declare_binding"@) + declare_binding_lines()
        + banner_lines("freeze_binding"@) + freeze_binding_lines()
}

/// Runs the binding demonstrations in order, each under its banner.
pub fn bindings_program() -> (r: Vec<String>)
    ensures
        lines_of(r@) == bindings_program_lines(),
{
    let mut r: Vec<String> = Vec::new();
    assert(lines_of(r@) =~= Seq::empty());
    append_lines(&mut r, banner("variable_binding"));
    assert(lines_of(r@) =~= banner_lines("variable_binding"@));
    append_lines(&mut r, variable_binding());
    append_lines(&mut r, banner("mutability_binding"));
    append_lines(&mut r, mutability_binding());
    append_lines(&mut r, banner("scope_binding"));
    append_lines(&mut r, scope_binding());
    append_lines(&mut r, banner("shadow_binding"));
    append_lines(&mut r, shadow_binding());
    append_lines(&mut r, banner("declare_binding"));
    append_lines(&mut r, declare_binding());
    append_lines(&mut r, banner("declare_binding"));
    append_lines(&mut r, declare_binding());
    append_lines(&mut r, banner("freeze_binding"));
    append_lines(&mut r, freeze_binding());
    r
}

} // verus!
