//! Banners that separate the demonstrations in a program's output.
use vstd::prelude::*;
use crate::bindings::{bindings_program, bindings_program_lines};
use crate::conversion::{conversion_program, conversion_program_lines};
use crate::custom_types::{custom_types_program, custom_types_program_lines};
use crate::expressions::{block_expressions, block_expressions_lines};
use crate::text::{append_lines, lines_of};

verus! {

/// The rule printed above and below the name of each demonstration.
pub const RULE: &'static str = "########################################";

/// The three banner lines that announce the demonstration `name`.
pub open spec fn banner_lines(name: Seq<char>) -> Seq<Seq<char>> {
    seq![RULE@, name, RULE@]
}

/// The banner that announces the demonstration `name`.
pub fn banner(name: &str) -> (r: Vec<String>)
    ensures
        lines_of(r@) == banner_lines(name@),
{
    let mut r: Vec<String> = Vec::new();
    r.push(String::from_str(RULE));
    r.push(String::from_str(name));
    r.push(String::from_str(RULE));
    assert(lines_of(r@) =~= banner_lines(name@));
    r
}

/// Everything the demo runner shows: the bindings, conversion and custom
/// types programs, then the block expressions.
pub open spec fn demo_runner_lines() -> Seq<Seq<char>> {
    bindings_program_lines() + conversion_program_lines() + custom_types_program_lines()
        + block_expressions_lines()
}

/// Runs every demonstration once, in a fixed order, and returns the lines
/// they show.
pub fn demo_runner() -> (r: Vec<String>)
    ensures
        lines_of(r@) == demo_runner_lines(),
{
    let mut r: Vec<String> = Vec::new();
    assert(lines_of(r@) =~= Seq::empty());
    append_lines(&mut r, bindings_program());
    assert(lines_of(r@) =~= bindings_program_lines());
    append_lines(&mut r, conversion_program());
    append_lines(&mut r, custom_types_program());
    append_lines(&mut r, block_expressions());
    r
}

/// The demo runner keeps no state and reads no input: any two runs show the
/// same lines, in the same order.
pub proof fn lemma_runs_agree(first: Seq<String>, second: Seq<String>)
    requires
        lines_of(first) == demo_runner_lines(),
        lines_of(second) == demo_runner_lines(),
    ensures
        lines_of(first) == lines_of(second),
        first.len() == second.len(),
        forall|i: int| 0 <= i < first.len() ==> (#[trigger] first[i])@ == second[i]@,
{
    assert(lines_of(first).len() == first.len());
    assert(lines_of(second).len() == second.len());
    assert forall|i: int| 0 <= i < first.len() implies (#[trigger] first[i])@ == second[i]@ by {
        assert(lines_of(first)[i] == first[i]@);
        assert(lines_of(second)[i] == second[i]@);
    }
}

} // verus!
