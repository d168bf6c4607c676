use hello_world::bindings::{
    bindings_program, declare_binding, freeze_binding, mutability_binding, scope_binding,
    shadow_binding, variable_binding,
};
use hello_world::conversion::{
    convert_to_parse_from_string, conversion_program, from_into, try_from_into, Circle, EvenNumber,
    Number,
};
use hello_world::custom_types::custom_types_program;
use hello_world::enums::{
    enum_c_type, enum_type, enum_use_type, inspect, Color, Operations, Status,
    VeryVerboseEnumOfThingsToDoWithNumbers2, WebEvent, Work,
};
use hello_world::enums::Number as Counting;
use hello_world::expressions::block_expressions;
use hello_world::globals::{const_type, is_big, size_line, LANGUAGE, THRESHOLD};
use hello_world::list::{enum_linkedlist_type, List};
use hello_world::records::{pair_line, struct_type, Person, Point, Tenths};
use hello_world::runner::{banner, demo_runner, RULE};
use hello_world::text::{int_string, labelled_bool, push_hex6, push_radix};

fn strings(lines: &[&str]) -> Vec<String> {
    lines.iter().map(|s| s.to_string()).collect()
}

fn with_banner(name: &str, lines: &[&str]) -> Vec<String> {
    let mut r = vec![RULE.to_string(), name.to_string(), RULE.to_string()];
    r.extend(strings(lines));
    r
}

fn expected_bindings() -> Vec<String> {
    let mut r = Vec::new();
    r.extend(with_banner(
        "variable_binding",
        &["An integer: 1", "A boolean: true", "Meet the unit value: ()"],
    ));
    r.extend(with_banner(
        "mutability_binding",
        &["Before mutation: 1", "After mutation: 2"],
    ));
    r.extend(with_banner("scope_binding", &["inner short: 2", "outer long: 1"]));
    r.extend(with_banner(
        "shadow_binding",
        &[
            "before being shadowed: 1",
            "shadowed in inner block: abc",
            "outside inner block: 1",
            "shadowed in outer block: 2",
        ],
    ));
    r.extend(with_banner("declare_binding", &["a binding: 144", "another binding: 1"]));
    r.extend(with_banner("declare_binding", &["a binding: 144", "another binding: 1"]));
    r.extend(with_banner("freeze_binding", &["  frozen 7", "unfrozen 3"]));
    r
}

fn expected_conversion() -> Vec<String> {
    let mut r = Vec::new();
    r.extend(with_banner(
        "from_into",
        &["My number is Number { value: 30 }", "My number is Number { value: 5 }"],
    ));
    r.extend(with_banner("try_from_into", &[]));
    r.extend(with_banner(
        "convert_to_parse_from_string",
        &["Circle of radius 6", "to_string() : 6", "Sum: 15"],
    ));
    r
}

fn expected_custom_types() -> Vec<String> {
    let mut r = Vec::new();
    r.extend(with_banner(
        "struct",
        &[
            "Person { name: \"Peter\", age: 27 }",
            "point coordinates: (10.3, 0.4)",
            "second point: (5.2, 0.4)",
            "pair contains 1 and 0.1",
            "pair contains 1 and 0.1",
        ],
    ));
    r.extend(with_banner(
        "enum",
        &[
            "pressed 'x'.",
            "pasted \"my text\".",
            "clicked at x=20, y=80.",
            "page loaded",
            "page unloaded",
        ],
    ));
    r.extend(with_banner(
        "enum_use",
        &["The poor have no money...", "Civilians work!", "Add", "3"],
    ));
    r.extend(with_banner(
        "enum_c",
        &[
            "zero is 0",
            "one is 1",
            "two is 2",
            "roses are #ff0000",
            "violets are #0000ff",
            "green are #00ff00",
        ],
    ));
    r.extend(with_banner(
        "enum_linkedlist",
        &["linked list has length: 3", "3, 2, 1, Nil"],
    ));
    r.extend(with_banner(
        "const",
        &["This is Rust", "The threshold is 10", "16 is big"],
    ));
    r
}

fn expected_expressions() -> Vec<String> {
    strings(&["x is 5", "y is 155", "z is ()"])
}

#[test]
fn runner_shows_every_program_in_order() {
    let mut expected = expected_bindings();
    expected.extend(expected_conversion());
    expected.extend(expected_custom_types());
    expected.extend(expected_expressions());
    assert_eq!(demo_runner(), expected);
}

#[test]
fn runner_twice_gives_identical_output() {
    let first = demo_runner();
    let second = demo_runner();
    assert_eq!(first, second);
    assert_eq!(first.concat(), second.concat());
}

#[test]
fn banner_has_rule_name_rule() {
    assert_eq!(RULE, "########################################");
    assert_eq!(banner("const"), strings(&[RULE, "const", RULE]));
}

#[test]
fn bindings_program_lines() {
    assert_eq!(bindings_program(), expected_bindings());
}

#[test]
fn conversion_program_lines() {
    assert_eq!(conversion_program(), expected_conversion());
}

#[test]
fn custom_types_program_lines() {
    assert_eq!(custom_types_program(), expected_custom_types());
}

#[test]
fn variable_binding_lines() {
    assert_eq!(
        variable_binding(),
        strings(&["An integer: 1", "A boolean: true", "Meet the unit value: ()"])
    );
}

#[test]
fn mutability_before_and_after() {
    assert_eq!(
        mutability_binding(),
        strings(&["Before mutation: 1", "After mutation: 2"])
    );
}

#[test]
fn scope_shadow_declare_freeze_lines() {
    assert_eq!(scope_binding(), strings(&["inner short: 2", "outer long: 1"]));
    assert_eq!(
        shadow_binding(),
        strings(&[
            "before being shadowed: 1",
            "shadowed in inner block: abc",
            "outside inner block: 1",
            "shadowed in outer block: 2",
        ])
    );
    assert_eq!(declare_binding(), strings(&["a binding: 144", "another binding: 1"]));
    assert_eq!(freeze_binding(), strings(&["  frozen 7", "unfrozen 3"]));
}

#[test]
fn from_and_into_make_numbers() {
    assert_eq!(Number::from(30), Number { value: 30 });
    let n: Number = (-7i32).into();
    assert_eq!(n.debug_text(), "Number { value: -7 }");
    assert_eq!(
        from_into(),
        strings(&["My number is Number { value: 30 }", "My number is Number { value: 5 }"])
    );
}

#[test]
fn fallible_conversion_of_eight_and_five() {
    assert_eq!(EvenNumber::try_from(8), Ok(EvenNumber(8)));
    assert_eq!(EvenNumber::try_from(5), Err(()));
    let result: Result<EvenNumber, ()> = 8i32.try_into();
    assert_eq!(result, Ok(EvenNumber(8)));
    let result: Result<EvenNumber, ()> = 5i32.try_into();
    assert_eq!(result, Err(()));
    try_from_into();
}

#[test]
fn fallible_conversion_edges() {
    assert_eq!(EvenNumber::try_from(0), Ok(EvenNumber(0)));
    assert_eq!(EvenNumber::try_from(-4), Ok(EvenNumber(-4)));
    assert_eq!(EvenNumber::try_from(-3), Err(()));
    assert_eq!(EvenNumber::try_from(i32::MIN), Ok(EvenNumber(i32::MIN)));
    assert_eq!(EvenNumber::try_from(i32::MAX), Err(()));
}

#[test]
fn text_and_parse_conversions() {
    assert_eq!(Circle { radius: -12 }.to_text(), "Circle of radius -12");
    assert_eq!(
        convert_to_parse_from_string(),
        strings(&["Circle of radius 6", "to_string() : 6", "Sum: 15"])
    );
}

#[test]
fn struct_type_lines() {
    assert_eq!(
        struct_type(),
        strings(&[
            "Person { name: \"Peter\", age: 27 }",
            "point coordinates: (10.3, 0.4)",
            "second point: (5.2, 0.4)",
            "pair contains 1 and 0.1",
            "pair contains 1 and 0.1",
        ])
    );
}

#[test]
fn person_debug_escapes_quotes_and_backslashes() {
    let p = Person { name: "a\"b\\c".to_string(), age: 255 };
    assert_eq!(p.debug_text(), "Person { name: \"a\\\"b\\\\c\", age: 255 }");
    let empty = Person { name: String::new(), age: 0 };
    assert_eq!(empty.debug_text(), "Person { name: \"\", age: 0 }");
}

#[test]
fn tenths_are_written_with_one_decimal() {
    let p = Point { x: Tenths(-5), y: Tenths(120) };
    assert_eq!(p.to_text(), "(-0.5, 12.0)");
    let q = Point { x: Tenths(i32::MIN), y: Tenths(0) };
    assert_eq!(q.to_text(), "(-214748364.8, 0.0)");
    assert_eq!(pair_line(-3, Tenths(27)), "pair contains -3 and 2.7");
}

#[test]
fn web_events_are_described() {
    assert_eq!(inspect(WebEvent::KeyPress('x')), "pressed 'x'.");
    assert_eq!(inspect(WebEvent::KeyPress('é')), "pressed 'é'.");
    assert_eq!(inspect(WebEvent::Paste("my text".to_string())), "pasted \"my text\".");
    assert_eq!(inspect(WebEvent::Click { x: 20, y: 80 }), "clicked at x=20, y=80.");
    assert_eq!(
        inspect(WebEvent::Click { x: i64::MIN, y: -1 }),
        "clicked at x=-9223372036854775808, y=-1."
    );
    assert_eq!(inspect(WebEvent::PageLoad), "page loaded");
    assert_eq!(inspect(WebEvent::PageUnload), "page unloaded");
    assert_eq!(
        enum_type(),
        strings(&[
            "pressed 'x'.",
            "pasted \"my text\".",
            "clicked at x=20, y=80.",
            "page loaded",
            "page unloaded",
        ])
    );
}

#[test]
fn status_work_and_operations() {
    assert_eq!(Status::Rich.describe(), "The rich have lots of money!");
    assert_eq!(Status::Poor.describe(), "The poor have no money...");
    assert_eq!(Work::Civilian.describe(), "Civilians work!");
    assert_eq!(Work::Soldier.describe(), "Soldiers fight!");
    assert_eq!(Operations::Add.debug_text(), "Add");
    assert_eq!(Operations::Subtract.debug_text(), "Subtract");
    assert_eq!(VeryVerboseEnumOfThingsToDoWithNumbers2::Add.run(1, 2), 3);
    assert_eq!(VeryVerboseEnumOfThingsToDoWithNumbers2::Subtract.run(1, 2), -1);
    assert_eq!(
        enum_use_type(),
        strings(&["The poor have no money...", "Civilians work!", "Add", "3"])
    );
}

#[test]
fn numeric_enumeration_counts_from_zero() {
    assert_eq!(Counting::Zero.discriminant(), 0);
    assert_eq!(Counting::One.discriminant(), 1);
    assert_eq!(Counting::Two.discriminant(), 2);
    assert_eq!(Color::Red.value(), 0xff0000);
    assert_eq!(Color::Green.value(), 0x00ff00);
    assert_eq!(Color::Blue.value(), 0x0000ff);
    let lines = enum_c_type();
    assert_eq!(lines[0], "zero is 0");
    assert_eq!(lines[1], "one is 1");
    assert_eq!(lines[2], "two is 2");
    assert_eq!(
        lines[3..].to_vec(),
        strings(&["roses are #ff0000", "violets are #0000ff", "green are #00ff00"])
    );
}

#[test]
fn linked_list_of_three() {
    let mut list = List::new();
    list = list.prepend(1);
    list = list.prepend(2);
    list = list.prepend(3);
    assert_eq!(list.len(), 3);
    assert_eq!(list.stringify(), "3, 2, 1, Nil");
    assert_eq!(
        enum_linkedlist_type(),
        strings(&["linked list has length: 3", "3, 2, 1, Nil"])
    );
}

#[test]
fn empty_and_large_lists() {
    let empty = List::new();
    assert_eq!(empty.len(), 0);
    assert_eq!(empty.stringify(), "Nil");
    let one = List::new().prepend(u32::MAX).prepend(0);
    assert_eq!(one.len(), 2);
    assert_eq!(one.stringify(), "0, 4294967295, Nil");
}

#[test]
fn global_constants_and_threshold() {
    assert_eq!(LANGUAGE, "Rust");
    assert_eq!(THRESHOLD, 10);
    assert!(is_big(16));
    assert!(!is_big(10));
    assert!(is_big(11));
    assert!(!is_big(i32::MIN));
    assert_eq!(size_line(16), "16 is big");
    assert_eq!(size_line(-3), "-3 is small");
    assert_eq!(
        const_type(),
        strings(&["This is Rust", "The threshold is 10", "16 is big"])
    );
}

#[test]
fn block_expression_values() {
    assert_eq!(block_expressions(), expected_expressions());
}

#[test]
fn number_text_rendering() {
    assert_eq!(int_string(0), "0");
    assert_eq!(int_string(-45), "-45");
    assert_eq!(int_string(i64::MAX), "9223372036854775807");
    assert_eq!(int_string(i64::MIN), "-9223372036854775808");
    assert_eq!(labelled_bool("b=", false), "b=false");
    let mut s = String::from(">");
    push_radix(&mut s, 255, 2);
    assert_eq!(s, ">11111111");
    let mut h = String::new();
    push_hex6(&mut h, 0x1f);
    assert_eq!(h, "00001f");
    let mut h = String::new();
    push_hex6(&mut h, 0x1234abc);
    assert_eq!(h, "1234abc");
    let mut h = String::new();
    push_hex6(&mut h, 0);
    assert_eq!(h, "000000");
}
