//! Enums: variants with and without data, dispatch by `match`, type aliases,
//! and C-like enums read as integers.
use vstd::prelude::*;
use crate::text::{hex6_text, int_string, int_text, labelled_int, labelled_text, lines_of, push_char, push_hex6, push_i64};

verus! {

/// Something that happened on a web page.
pub enum WebEvent {
    PageLoad,
    PageUnload,
    KeyPress(char),
    Paste(String),
    Click { x: i64, y: i64 },
}

/// The line that describes `event`.
pub open spec fn inspect_text(event: WebEvent) -> Seq<char> {
    match event {
        WebEvent::PageLoad => "page loaded"@,
        WebEvent::PageUnload => "page unloaded"@,
        WebEvent::KeyPress(c) => "pressed '"@ + seq![c] + "'."@,
        WebEvent::Paste(s) => "pasted \""@ + s@ + "\"."@,
        WebEvent::Click { x, y } => "clicked at x="@ + int_text(x as int) + ", y="@ + int_text(
            y as int,
        ) + "."@,
    }
}

/// Describes `event` in one line.
pub fn inspect(event: WebEvent) -> (r: String)
    ensures
        r@ == inspect_text(event),
{
    match event {
        WebEvent::PageLoad => String::from_str("page loaded"),
        WebEvent::PageUnload => String::from_str("page unloaded"),
        WebEvent::KeyPress(c) => {
            let mut r = String::from_str("pressed '");
            push_char(&mut r, c);
            r.append("'.");
            r
        },
        WebEvent::Paste(s) => {
            let mut r = labelled_text("pasted \"", s.as_str());
            r.append("\".");
            r
        },
        WebEvent::Click { x, y } => {
            let mut r = labelled_int("clicked at x=", x);
            r.append(", y=");
            push_i64(&mut r, y);
            r.append(".");
            r
        },
    }
}

pub open spec fn enum_type_lines() -> Seq<Seq<char>> {
    seq![
        inspect_text(WebEvent::KeyPress('x')),
        "pasted \""@ + "my text"@ + "\"."@,
        inspect_text(WebEvent::Click { x: 20, y: 80 }),
        inspect_text(WebEvent::PageLoad),
        inspect_text(WebEvent::PageUnload),
    ]
}

/// One event of each kind, each described.
pub fn enum_type() -> (r: Vec<String>)
    ensures
        lines_of(r@) == enum_type_lines(),
{
    let pressed: WebEvent = WebEvent::KeyPress('x');
    let pasted: WebEvent = WebEvent::Paste(String::from_str("my text"));
    let click: WebEvent = WebEvent::Click { x: 20, y: 80 };
    let load: WebEvent = WebEvent::PageLoad;
    let unload: WebEvent = WebEvent::PageUnload;
    let mut r: Vec<String> = Vec::new();
    r.push(inspect(pressed));
    r.push(inspect(pasted));
    r.push(inspect(click));
    r.push(inspect(load));
    r.push(inspect(unload));
    assert(lines_of(r@) =~= enum_type_lines());
    r
}

/// Whether someone has money.
#[derive(Clone, Copy, Debug, PartialEq, Eq, Structural)]
pub enum Status {
    Rich,
    Poor,
}

/// What someone does.
#[derive(Clone, Copy, Debug, PartialEq, Eq, Structural)]
pub enum Work {
    Civilian,
    Soldier,
}

impl Status {
    pub open spec fn spec_describe(self) -> Seq<char> {
        match self {
            Status::Rich => "The rich have lots of money!"@,
            Status::Poor => "The poor have no money..."@,
        }
    }

    /// A sentence about this status.
    pub fn describe(&self) -> (r: String)
        ensures
            r@ == self.spec_describe(),
    {
        match self {
            Status::Rich => String::from_str("The rich have lots of money!"),
            Status::Poor => String::from_str("The poor have no money..."),
        }
    }
}

impl Work {
    pub open spec fn spec_describe(self) -> Seq<char> {
        match self {
            Work::Civilian => "Civilians work!"@,
            Work::Soldier => "Soldiers fight!"@,
        }
    }

    /// A sentence about this kind of work.
    pub fn describe(&self) -> (r: String)
        ensures
            r@ == self.spec_describe(),
    {
        match self {
            Work::Civilian => String::from_str("Civilians work!"),
            Work::Soldier => String::from_str("Soldiers fight!"),
        }
    }
}

/// Two operations on numbers, under a long name.
#[derive(Clone, Copy, Debug, PartialEq, Eq, Structural)]
pub enum VeryVerboseEnumOfThingsToDoWithNumbers {
    Add,
    Subtract,
}

/// A short name for the operations.
pub type Operations = VeryVerboseEnumOfThingsToDoWithNumbers;

impl VeryVerboseEnumOfThingsToDoWithNumbers {
    pub open spec fn spec_debug_text(self) -> Seq<char> {
        match self {
            Operations::Add => "Add"@,
            Operations::Subtract => "Subtract"@,
        }
    }

    /// The debug form: the variant's name.
    pub fn debug_text(&self) -> (r: String)
        ensures
            r@ == self.spec_debug_text(),
    {
        match self {
            Operations::Add => String::from_str("Add"),
            Operations::Subtract => String::from_str("Subtract"),
        }
    }
}

/// Two operations on numbers, applied by `run`.
#[derive(Clone, Copy, Debug, PartialEq, Eq, Structural)]
pub enum VeryVerboseEnumOfThingsToDoWithNumbers2 {
    Add,
    Subtract,
}

impl VeryVerboseEnumOfThingsToDoWithNumbers2 {
    /// The exact value of the operation on `x` and `y`.
    pub open spec fn spec_run(self, x: int, y: int) -> int {
        match self {
            Self::Add => x + y,
            Self::Subtract => x - y,
        }
    }

    /// Applies the operation to `x` and `y`.
    pub fn run(&self, x: i32, y: i32) -> (r: i32)
        requires
            i32::MIN <= self.spec_run(x as int, y as int) <= i32::MAX,
        ensures
            r as int == self.spec_run(x as int, y as int),
    {
        match self {
            Self::Add => x + y,
            Self::Subtract => x - y,
        }
    }
}

pub open spec fn enum_use_type_lines() -> Seq<Seq<char>> {
    seq![
        Status::Poor.spec_describe(),
        Work::Civilian.spec_describe(),
        Operations::Add.spec_debug_text(),
        int_text(VeryVerboseEnumOfThingsToDoWithNumbers2::Add.spec_run(1, 2)),
    ]
}

/// Variants named through their enum and through an alias, and an operation
/// chosen by variant.
pub fn enum_use_type() -> (r: Vec<String>)
    ensures
        lines_of(r@) == enum_use_type_lines(),
{
    let status = Status::Poor;
    let work = Work::Civilian;
    let mut r: Vec<String> = Vec::new();
    r.push(status.describe());
    r.push(work.describe());
    let x: VeryVerboseEnumOfThingsToDoWithNumbers = Operations::Add;
    r.push(x.debug_text());
    let sum = VeryVerboseEnumOfThingsToDoWithNumbers2::run(
        &VeryVerboseEnumOfThingsToDoWithNumbers2::Add,
        1,
        2,
    );
    r.push(int_string(sum as i64));
    assert(lines_of(r@) =~= enum_use_type_lines());
    r
}

/// A C-like enum whose variants count up from zero.
#[derive(Clone, Copy, Debug, PartialEq, Eq, Structural)]
pub enum Number {
    Zero,
    One,
    Two,
}

/// A C-like enum whose variants stand for RGB colour values.
#[derive(Clone, Copy, Debug, PartialEq, Eq, Structural)]
pub enum Color {
    Red,
    Green,
    Blue,
}

impl Number {
    /// The integer of each variant, by its position.
    pub open spec fn spec_discriminant(self) -> int {
        match self {
            Number::Zero => 0,
            Number::One => 1,
            Number::Two => 2,
        }
    }

    /// The variant read as an integer.
    pub fn discriminant(&self) -> (r: i32)
        ensures
            r as int == self.spec_discriminant(),
    {
        match self {
            Number::Zero => 0,
            Number::One => 1,
            Number::Two => 2,
        }
    }
}

impl Color {
    /// The RGB value of each variant.
    pub open spec fn spec_value(self) -> int {
        match self {
            Color::Red => 0xff0000,
            Color::Green => 0x00ff00,
            Color::Blue => 0x0000ff,
        }
    }

    /// The variant read as an integer: its RGB value.
    pub fn value(&self) -> (r: i32)
        ensures
            r as int == self.spec_value(),
    {
        match self {
            Color::Red => 0xff0000,
            Color::Green => 0x00ff00,
            Color::Blue => 0x0000ff,
        }
    }
}

/// A line made of `label`, `#` and the colour's value in six hex digits.
pub fn color_line(label: &str, c: Color) -> (r: String)
    ensures
        r@ == label@ + "#"@ + hex6_text(c.spec_value() as nat),
{
    let mut r = labelled_text(label, "#");
    push_hex6(&mut r, c.value() as u64);
    r
}

pub open spec fn enum_c_type_lines() -> Seq<Seq<char>> {
    seq![
        "zero is "@ + int_text(0),
        "one is "@ + int_text(1),
        "two is "@ + int_text(2),
        "roses are "@ + "#"@ + hex6_text(0xff0000),
        "violets are "@ + "#"@ + hex6_text(0x0000ff),
        "green are "@ + "#"@ + hex6_text(0x00ff00),
    ]
}

/// The integers of the counting variants and the hex values of the colours.
pub fn enum_c_type() -> (r: Vec<String>)
    ensures
        lines_of(r@) == enum_c_type_lines(),
{
    let mut r: Vec<String> = Vec::new();
    r.push(labelled_int("zero is ", Number::Zero.discriminant() as i64));
    r.push(labelled_int("one is ", Number::One.discriminant() as i64));
    r.push(labelled_int("two is ", Number::Two.discriminant() as i64));
    r.push(color_line("roses are ", Color::Red));
    r.push(color_line("violets are ", Color::Blue));
    r.push(color_line("green are ", Color::Green));
    assert(lines_of(r@) =~= enum_c_type_lines());
    r
}

} // verus!
