//! Conversions between types: `From` / `Into`, `TryFrom` / `TryInto`, and
//! to and from text.
use vstd::prelude::*;
use crate::runner::{banner, banner_lines};
use crate::text::{append_lines, int_text, labelled_int, lines_of, push_i64};

verus! {

/// A number made from an `i32` by `From`.
#[derive(Debug, Clone, Copy, PartialEq, Eq, Structural)]
pub struct Number {
    pub value: i32,
}

impl From<i32> for Number {
    fn from(item: i32) -> (r: Number) {
        Number { value: item }
    }
}

impl vstd::std_specs::convert::FromSpecImpl<i32> for Number {
    open spec fn obeys_from_spec() -> bool {
        true
    }

    open spec fn from_spec(v: i32) -> Number {
        Number { value: v }
    }
}

/// The debug form of a `Number` holding `value`.
pub open spec fn number_debug_text(value: int) -> Seq<char> {
    "Number { value: "@ + int_text(value) + " }"@
}

impl Number {
    /// The debug form of this number, `Number { value: .. }`.
    pub fn debug_text(&self) -> (r: String)
        ensures
            r@ == number_debug_text(self.value as int),
    {
        let mut r = String::from_str("Number { value: ");
        push_i64(&mut r, self.value as i64);
        r.append(" }");
        r
    }
}

pub open spec fn from_into_lines() -> Seq<Seq<char>> {
    seq!["My number is "@ + number_debug_text(30), "My number is "@ + number_debug_text(5)]
}

/// A `Number` made by `Number::from` and one made by `into`.
pub fn from_into() -> (r: Vec<String>)
    ensures
        lines_of(r@) == from_into_lines(),
{
    let mut r: Vec<String> = Vec::new();
    let num = Number::from(30);
    let mut line = String::from_str("My number is ");
    line.append(num.debug_text().as_str());
    r.push(line);
    let five: i32 = 5;
    let num: Number = five.into();
    let mut line = String::from_str("My number is ");
    line.append(num.debug_text().as_str());
    r.push(line);
    assert(lines_of(r@) =~= from_into_lines());
    r
}

/// An even `i32`; `TryFrom` refuses an odd one.
#[derive(Debug, Clone, Copy, PartialEq, Eq, Structural)]
pub struct EvenNumber(pub i32);

impl EvenNumber {
    /// Every `EvenNumber` made by `try_from` holds an even value.
    pub open spec fn wf(&self) -> bool {
        self.0 % 2 == 0
    }
}

/// What `EvenNumber::try_from(value)` gives: the number when it is even, else
/// the empty error.
pub open spec fn even_number_of(value: i32) -> Result<EvenNumber, ()> {
    if value % 2 == 0 {
        Ok(EvenNumber(value))
    } else {
        Err(())
    }
}

impl TryFrom<i32> for EvenNumber {
    type Error = ();

    fn try_from(value: i32) -> (r: Result<Self, Self::Error>) {
        if value % 2 == 0 {
            Ok(EvenNumber(value))
        } else {
            Err(())
        }
    }
}

impl vstd::std_specs::convert::TryFromSpecImpl<i32> for EvenNumber {
    open spec fn obeys_try_from_spec() -> bool {
        true
    }

    open spec fn try_from_spec(v: i32) -> Result<EvenNumber, ()> {
        even_number_of(v)
    }
}

/// A result of `try_from` that is a number is well formed and holds the
/// value it was made from.
pub proof fn lemma_try_from_keeps_even(value: i32)
    ensures
        even_number_of(value) is Ok <==> value % 2 == 0,
        even_number_of(value) is Ok ==> even_number_of(value)->Ok_0.wf()
            && even_number_of(value)->Ok_0.0 == value,
{
}

/// `try_from` and `try_into` accept 8 and refuse 5.
pub fn try_from_into() {
    let eight = EvenNumber::try_from(8);
    assert(eight == Ok::<EvenNumber, ()>(EvenNumber(8)));
    let five = EvenNumber::try_from(5);
    assert(five == Err::<EvenNumber, ()>(()));
    let result: Result<EvenNumber, ()> = 8i32.try_into();
    assert(result == Ok::<EvenNumber, ()>(EvenNumber(8)));
    let result: Result<EvenNumber, ()> = 5i32.try_into();
    assert(result == Err::<EvenNumber, ()>(()));
}

/// Whether `s` is a non-empty run of decimal digits.
pub open spec fn is_decimal(s: Seq<char>) -> bool {
    s.len() > 0 && forall|i: int| 0 <= i < s.len() ==> '0' <= #[trigger] s[i] <= '9'
}

/// The value of the decimal digits `s`.
pub open spec fn decimal_value(s: Seq<char>) -> nat
    decreases s.len(),
{
    if s.len() == 0 {
        0
    } else {
        decimal_value(s.drop_last()) * 10 + (s.last() as nat - '0' as nat) as nat
    }
}

/// Relies on std's `str::parse::<i32>`: decimal digits whose value fits in an
/// `i32` parse to that value, and the empty string is refused.
#[verifier::external_body]
fn parse_i32(s: &str) -> (r: Option<i32>)
    ensures
        is_decimal(s@) && decimal_value(s@) <= i32::MAX ==> r == Some(decimal_value(s@) as i32),
        s@.len() == 0 ==> r is None,
{
    s.parse::<i32>().ok()
}

/// A circle, shown as text by `to_text`.
pub struct Circle {
    pub radius: i32,
}

/// The text form of a circle of the given radius.
pub open spec fn circle_text(radius: int) -> Seq<char> {
    "Circle of radius "@ + int_text(radius)
}

impl Circle {
    /// The text form of this circle, `Circle of radius ..`.
    pub fn to_text(&self) -> (r: String)
        ensures
            r@ == circle_text(self.radius as int),
    {
        labelled_int("Circle of radius ", self.radius as i64)
    }
}

pub open spec fn convert_to_parse_from_string_lines() -> Seq<Seq<char>> {
    seq![circle_text(6), "to_string() : "@ + int_text(6), "Sum: "@ + int_text(5int + 10int)]
}

/// A circle and its radius turned into text, and two numbers parsed from
/// text and added.
pub fn convert_to_parse_from_string() -> (r: Vec<String>)
    ensures
        lines_of(r@) == convert_to_parse_from_string_lines(),
{
    let circle = Circle { radius: 6 };
    let mut r: Vec<String> = Vec::new();
    r.push(circle.to_text());
    r.push(labelled_int("to_string() : ", circle.radius as i64));
    proof {
        reveal_strlit("5");
        reveal_strlit("10");
        reveal_strlit("1");
        assert(decimal_value("5"@.drop_last()) == 0);
        assert("10"@.drop_last() =~= "1"@);
        assert(decimal_value("1"@.drop_last()) == 0);
        assert(decimal_value("1"@) == 1);
        assert(decimal_value("10"@) == 10);
        assert(is_decimal("10"@));
    }
    let parsed: i32 = parse_i32("5").unwrap();
    let turbo_parsed: i32 = parse_i32("10").unwrap();
    let sum: i32 = parsed + turbo_parsed;
    r.push(labelled_int("Sum: ", sum as i64));
    assert(lines_of(r@) =~= convert_to_parse_from_string_lines());
    r
}

/// What the conversion program shows: each demonstration under its banner.
pub open spec fn conversion_program_lines() -> Seq<Seq<char>> {
    banner_lines("from_into"@) + from_into_lines()
        + banner_lines("try_from_into"@)
        + banner_lines("convert_to_parse_from_string"@) + convert_to_parse_from_string_lines()
}

/// Runs the conversion demonstrations in order, each under its banner.
pub fn conversion_program() -> (r: Vec<String>)
    ensures
        lines_of(r@) == conversion_program_lines(),
{
    let mut r: Vec<String> = Vec::new();
    assert(lines_of(r@) =~= Seq::empty());
    append_lines(&mut r, banner("from_into"));
    assert(lines_of(r@) =~= banner_lines("from_into"@));
    append_lines(&mut r, from_into());
    append_lines(&mut r, banner("try_from_into"));
    try_from_into();
    append_lines(&mut r, banner("convert_to_parse_from_string"));
    append_lines(&mut r, convert_to_parse_from_string());
    r
}

} // verus!
