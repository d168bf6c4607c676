//! Structs: a record with named fields, a unit struct, tuple structs, and
//! structs nested in other structs.
use vstd::prelude::*;
use crate::text::{digit_char, int_text, lines_of, nat_text, push_char, push_i64, push_radix, push_u64};

verus! {

/// A quantity counted in tenths of a unit, written with one decimal place.
#[derive(Debug, Clone, Copy, PartialEq, Eq, Structural)]
pub struct Tenths(pub i32);

/// The text of `t` tenths: sign, whole units, a point and the tenths digit.
pub open spec fn tenths_text(t: int) -> Seq<char> {
    let a: nat = if t < 0 { (-t) as nat } else { t as nat };
    (if t < 0 { seq!['-'] } else { Seq::<char>::empty() }) + nat_text(a / 10) + seq!['.', digit_char((a % 10) as int)]
}

/// Appends the text of `t` tenths.
pub fn push_tenths(out: &mut String, t: Tenths)
    ensures
        final(out)@ == old(out)@ + tenths_text(t.0 as int),
{
    let ghost start = out@;
    let v: i64 = t.0 as i64;
    let a: u64 = if v < 0 {
        push_char(out, '-');
        (-v) as u64
    } else {
        v as u64
    };
    push_u64(out, a / 10);
    push_char(out, '.');
    push_radix(out, a % 10, 10);
    assert(out@ =~= start + tenths_text(t.0 as int));
}

/// A person with a name and an age.
#[derive(Debug, Clone, PartialEq, Eq)]
pub struct Person {
    pub name: String,
    pub age: u8,
}

/// `c` as it stands inside a quoted string: `"` and `\` take a backslash.
pub open spec fn escaped_char(c: char) -> Seq<char> {
    if c == '"' || c == '\\' {
        seq!['\\', c]
    } else {
        seq![c]
    }
}

/// `s` with each character escaped as inside a quoted string.
pub open spec fn escaped(s: Seq<char>) -> Seq<char>
    decreases s.len(),
{
    if s.len() == 0 {
        Seq::empty()
    } else {
        escaped(s.drop_last()) + escaped_char(s.last())
    }
}

/// The debug form of a person.
pub open spec fn person_debug_text(name: Seq<char>, age: nat) -> Seq<char> {
    "Person { name: \""@ + escaped(name) + "\", age: "@ + nat_text(age) + " }"@
}

/// Appends `s`, escaped as inside a quoted string.
pub fn push_escaped(out: &mut String, s: &str)
    ensures
        final(out)@ == old(out)@ + escaped(s@),
{
    let ghost start = out@;
    let n = s.unicode_len();
    let mut i: usize = 0;
    assert(s@.subrange(0, 0) =~= Seq::<char>::empty());
    while i < n
        invariant
            n == s@.len(),
            i <= n,
            out@ == start + escaped(s@.subrange(0, i as int)),
        decreases n - i,
    {
        let c = s.get_char(i);
        if c == '"' || c == '\\' {
            push_char(out, '\\');
        }
        push_char(out, c);
        assert(s@.subrange(0, i + 1).drop_last() =~= s@.subrange(0, i as int));
        assert(out@ =~= start + escaped(s@.subrange(0, i + 1)));
        i = i + 1;
    }
    assert(s@.subrange(0, n as int) =~= s@);
}

impl Person {
    /// The debug form, `Person { name: "..", age: .. }`.
    pub fn debug_text(&self) -> (r: String)
        ensures
            r@ == person_debug_text(self.name@, self.age as nat),
    {
        let mut r = String::from_str("Person { name: \"");
        push_escaped(&mut r, self.name.as_str());
        r.append("\", age: ");
        push_u64(&mut r, self.age as u64);
        r.append(" }");
        r
    }
}

/// A unit struct.
pub struct Unit;

/// A tuple struct of a whole number and a quantity in tenths.
pub struct Pair(pub i32, pub Tenths);

/// A point in the plane.
#[derive(Clone, Copy)]
pub struct Point {
    pub x: Tenths,
    pub y: Tenths,
}

/// A rectangle given by its top left and bottom right corners.
pub struct Rectangle {
    pub top_left: Point,
    pub bottom_right: Point,
}

/// The text of a point's coordinates, `(x, y)`.
pub open spec fn point_text(p: Point) -> Seq<char> {
    "("@ + tenths_text(p.x.0 as int) + ", "@ + tenths_text(p.y.0 as int) + ")"@
}

impl Point {
    /// The text of the coordinates, `(x, y)`.
    pub fn to_text(&self) -> (r: String)
        ensures
            r@ == point_text(*self),
    {
        let mut r = String::from_str("(");
        push_tenths(&mut r, self.x);
        r.append(", ");
        push_tenths(&mut r, self.y);
        r.append(")");
        r
    }
}

/// The text `pair contains .. and ..` for a whole number and a quantity.
pub open spec fn pair_text(a: int, b: int) -> Seq<char> {
    "pair contains "@ + int_text(a) + " and "@ + tenths_text(b)
}

/// The line that shows the two fields of a pair.
pub fn pair_line(a: i32, b: Tenths) -> (r: String)
    ensures
        r@ == pair_text(a as int, b.0 as int),
{
    let mut r = String::from_str("pair contains ");
    push_i64(&mut r, a as i64);
    r.append(" and ");
    push_tenths(&mut r, b);
    r
}

pub open spec fn struct_type_lines() -> Seq<Seq<char>> {
    seq![
        person_debug_text("Peter"@, 27),
        "point coordinates: "@ + point_text(Point { x: Tenths(103), y: Tenths(4) }),
        "second point: "@ + point_text(Point { x: Tenths(52), y: Tenths(4) }),
        pair_text(1, 1),
        pair_text(1, 1),
    ]
}

/// A person, two points and a rectangle made from them, a unit struct and a
/// pair, with their fields shown.
pub fn struct_type() -> (r: Vec<String>)
    ensures
        lines_of(r@) == struct_type_lines(),
{
    let name: String = String::from_str("Peter");
    let age: u8 = 27;
    let peter: Person = Person { name, age };
    let mut r: Vec<String> = Vec::new();
    r.push(peter.debug_text());
    let point: Point = Point { x: Tenths(103), y: Tenths(4) };
    let mut line = String::from_str("point coordinates: ");
    line.append(point.to_text().as_str());
    r.push(line);
    let bottom_right: Point = Point { x: Tenths(52), ..point };
    let mut line = String::from_str("second point: ");
    line.append(bottom_right.to_text().as_str());
    r.push(line);
    let Point { x: left_edge, y: top_edge } = point;
    let _rectangle: Rectangle = Rectangle {
        top_left: Point { x: left_edge, y: top_edge },
        bottom_right: bottom_right,
    };
    let _unit = Unit;
    let pair = Pair(1, Tenths(1));
    r.push(pair_line(pair.0, pair.1));
    let Pair(integer, decimal) = pair;
    r.push(pair_line(integer, decimal));
    assert(lines_of(r@) =~= struct_type_lines());
    r
}

} // verus!
