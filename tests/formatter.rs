use tarjama::context::Context;
use tarjama::context::Value;
use tarjama::formatter::parse_plural_messages;
use tarjama::formatter::parse_rule_segment;
use tarjama::formatter::split_segments;
use tarjama::formatter::plural_messages_from_segments;
use tarjama::formatter::DefaultFormatter;
use tarjama::formatter::Formatter;
use tarjama::formatter::Rule;
use tarjama::locale::EnglishVariant;
use tarjama::locale::Locale;

fn ctx(values: &[(&str, i64)], count: Option<i64>) -> Context {
    Context::new(
        values.iter().map(|(k, v)| (k.to_string(), Value::Integer(*v))).collect(),
        count,
    )
}

fn format(message: &str, context: &Context) -> Result<String, tarjama::error::Error> {
    let formatter = DefaultFormatter::new();
    Formatter::format(&formatter, &Locale::English(EnglishVariant::Default), message, context)
}

fn assert_ok(message: &str, context: Context, expected: &str) {
    let msg = format(message, &context);
    assert!(msg.is_ok());
    assert_eq!(msg.unwrap(), expected.to_string());
}

fn assert_err(message: &str, context: Context, expected: &str) {
    let msg = format(message, &context);
    assert!(msg.is_err());
    assert_eq!(msg.unwrap_err().to_string(), expected.to_string());
}

#[test]
fn format_syntax() {
    assert_ok(
        "a = {a}, b = {1}, a = {}, b = {}, c = {}, c = {2}, c = {c}, count = {?}",
        ctx(&[("a", 1), ("b", 2), ("c", 3)], Some(5)),
        "a = 1, b = 2, a = 1, b = 2, c = 3, c = 3, c = 3, count = 5",
    );
}

#[test]
fn access_undefined() {
    assert_err(
        "a = {a}, b = {1}, a = {}, b = {}, c = {}, c = {2}, c = {c}, count = {?}, d = {d}",
        ctx(&[("a", 1), ("b", 2), ("c", 3)], Some(5)),
        "cannot find value `'d'` in this context.",
    );

    assert_err(
        "a = {a}, b = {1}, a = {}, b = {}, c = {}, c = {2}, c = {c}, count = {?}, d = {d}",
        ctx(&[("a", 1), ("b", 2), ("c", 3)], Some(5)),
        "cannot find value `'d'` in this context.",
    );
}

#[test]
fn access_undefined_positioned_context() {
    assert_err(
        "a = {a}, b = {1}, a = {}, b = {}, c = {}, c = {2}, c = {c}, count = {?}, d = {3}",
        ctx(&[("a", 1), ("b", 2), ("c", 3)], Some(5)),
        "invalid reference to positional value `'3'` (there is 3 value).",
    );
}

#[test]
fn access_undefined_indexed_context() {
    assert_err(
        "a = {a}, b = {1}, a = {}, b = {}, c = {}, c = {2}, c = {c}, count = {?}, d = {}",
        ctx(&[("a", 1), ("b", 2), ("c", 3)], Some(5)),
        "invalid reference to indexed value `'3'` (there is 3 value).",
    );
}

#[test]
fn access_undefined_count_context() {
    assert_err(
        "a = {a}, b = {1}, a = {}, b = {}, c = {}, c = {2}, c = {c}, count = {?}",
        ctx(&[("a", 1), ("b", 2), ("c", 3)], None),
        "invalid reference to count ( {?} ) value.",
    );
}

#[test]
fn escape_brackets() {
    assert_ok("a = {{{a}}}", ctx(&[("a", 1)], None), "a = {1}");
    assert_ok("{{", ctx(&[], None), "{");
    assert_ok("}}", ctx(&[], None), "}");
}

#[test]
fn rule_matching() {
    let message = "{0} foo | {1, 2} bar | {..5} baz | {10..} qux | fizz || bizz";

    assert_ok(message, ctx(&[], Some(0)), "foo");
    assert_ok(message, ctx(&[], Some(1)), "bar");
    assert_ok(message, ctx(&[], Some(2)), "bar");
    assert_ok(message, ctx(&[], Some(3)), "baz");
    assert_ok(message, ctx(&[], Some(4)), "baz");
    assert_ok(message, ctx(&[], Some(5)), "baz");
    assert_ok(message, ctx(&[], Some(6)), "fizz | bizz");
    assert_ok(message, ctx(&[], Some(7)), "fizz | bizz");
    assert_ok(message, ctx(&[], Some(8)), "fizz | bizz");
    assert_ok(message, ctx(&[], Some(9)), "fizz | bizz");
    assert_ok(message, ctx(&[], Some(10)), "qux");
    assert_ok(message, ctx(&[], Some(100)), "qux");
}

#[test]
fn message_parse_errors() {
    assert_err(
        "foo {bar",
        ctx(&[], None),
        "invalid format string: expected `'}'` but string was terminated.",
    );
    assert_err(
        "foo {",
        ctx(&[], None),
        "invalid format string: expected `'}'` but string was terminated.",
    );
    assert_err("}{", ctx(&[], None), "invalid format string: expected `'}'`, found `'{'`.");
    assert_err("}{", ctx(&[], None), "invalid format string: expected `'}'`, found `'{'`.");
    assert_err(
        "{",
        ctx(&[], None),
        "invalid format string: expected `'}'` but string was terminated.",
    );
}

#[test]
fn plural_messages_parse_errors() {
    let cases = [
        ("{0} foo | {1 bar | baz", "formatting: failed to parse rule for `'{1 bar'`, expected `'}'` but string was terminated."),
        ("{0} foo | 1} bar | baz", "formatting: failed to parse rule for `'1} bar'`, expected `'{'` but string was terminated."),
        ("{0} foo | {one} bar | baz", "formatting: failed to parse value `'one'` in match rule for `'{one} bar'`, invalid digit found in string."),
        ("{0} foo | {1, two bar | baz", "formatting: failed to parse rule for `'{1, two bar'`, expected `'}'` but string was terminated."),
        ("{0} foo | 1, two} bar | baz", "formatting: failed to parse rule for `'1, two} bar'`, expected `'{'` but string was terminated."),
        ("{0} foo | {1, two} bar | baz", "formatting: failed to parse value `'two'` in match rule for `'{1, two} bar'`, invalid digit found in string."),
        ("{0} foo | ..two} bar | baz", "formatting: failed to parse rule for `'..two} bar'`, expected `'{'` but string was terminated."),
        ("{0} foo | {..two bar | baz", "formatting: failed to parse rule for `'{..two bar'`, expected `'}'` but string was terminated."),
        ("{0} foo | {..two} bar | baz", "formatting: failed to parse `'to'` value in range-to rule for `'{..two} bar'`, invalid digit found in string."),
        ("{0} foo | two..} bar | baz", "formatting: failed to parse rule for `'two..} bar'`, expected `'{'` but string was terminated."),
        ("{0} foo | {two.. bar | baz", "formatting: failed to parse rule for `'{two.. bar'`, expected `'}'` but string was terminated."),
        ("{0} foo | {two..} bar | baz", "formatting: failed to parse `'from'` value in range-from rule for `'{two..} bar'`, invalid digit found in string."),
        ("{0} foo | {one..5} bar | baz", "formatting: failed to parse `'from'` value in range rule for `'{one..5} bar'`, invalid digit found in string."),
        ("{0} foo | 2..5} bar | baz", "formatting: failed to parse rule for `'2..5} bar'`, expected `'{'` but string was terminated."),
        ("{0} foo | {2..5 bar | baz", "formatting: failed to parse rule for `'{2..5 bar'`, expected `'}'` but string was terminated."),
        ("{0} foo | {2....5} bar | baz", "formatting: failed to parse `'to'` value in range rule for `'{2....5} bar'`, invalid digit found in string."),
        ("{0} foo | {2.5} bar | baz", "formatting: failed to parse value `'2.5'` in match rule for `'{2.5} bar'`, invalid digit found in string."),
        ("", "formatting: failed to parse plural messages, expected at least a default message but string was terminated."),
    ];
    for (message, expected) in cases {
        assert_err(message, ctx(&[], Some(2)), expected);
    }
}

#[test]
fn without_count_only_substitutes() {
    assert_ok("a | b = {x}", ctx(&[("x", 7)], None), "a | b = 7");
    assert_ok("a || b", ctx(&[], None), "a || b");
}

#[test]
fn count_collapses_pipes_even_without_rules() {
    assert_ok("a || b", ctx(&[], Some(1)), "a | b");
    // An odd run of pipes ends with a separator.
    assert_err(
        "a ||| b",
        ctx(&[], Some(1)),
        "formatting: failed to parse rule for `'a ||'`, expected `'{'` but string was terminated.",
    );
}

#[test]
fn first_matching_rule_wins() {
    let message = "{1..5} wide | {3} narrow | other";
    assert_ok(message, ctx(&[], Some(3)), "wide");
    assert_ok(message, ctx(&[], Some(6)), "other");
    assert_ok("{..-3} low | {-2..2} mid | high", ctx(&[], Some(-7)), "low");
    assert_ok("{..-3} low | {-2..2} mid | high", ctx(&[], Some(-2)), "mid");
}

#[test]
fn values_are_not_read_again() {
    let context = Context::new(
        vec![("a".to_string(), Value::String("{b}".to_string())), ("b".to_string(), Value::Integer(2))],
        None,
    );
    assert_ok("x {a} y", context, "x {b} y");
    assert_ok("no braces at all", ctx(&[], None), "no braces at all");
}

#[test]
fn value_display_forms() {
    let context = Context::new(
        vec![
            ("s".to_string(), Value::String("text".to_string())),
            ("d".to_string(), Value::Double(1.5f64.to_string())),
            ("n".to_string(), Value::Integer(-42)),
        ],
        Some(i64::MIN),
    );
    assert_ok("{s} {d} {n} {?}", context, "text 1.5 -42 -9223372036854775808");
}

#[test]
fn placeholder_names_are_trimmed() {
    assert_ok("{ a } {  1 }", ctx(&[("a", 1), ("b", 2)], None), "1 2");
    assert_err("{ }", ctx(&[("a", 1)], None), "cannot find value `''` in this context.");
}

#[test]
fn first_of_duplicate_names_wins() {
    assert_ok("{a}", ctx(&[("a", 1), ("a", 2)], None), "1");
}

#[test]
fn stray_closing_brace() {
    assert_err("}a", ctx(&[], None), "invalid format string: expected `'}'`, found `'a'`.");
    assert_err("}", ctx(&[], None), "invalid format string: expected `'}'` but string was terminated.");
    assert_err("}é", ctx(&[], None), "invalid format string: expected `'}'`, found `'é'`.");
}

#[test]
fn empty_template() {
    assert_ok("", ctx(&[], None), "");
    assert_ok("   plain   ", ctx(&[], Some(3)), "plain");
}

#[test]
fn out_of_range_bounds() {
    assert_err(
        "{99999999999999999999} big | other",
        ctx(&[], Some(1)),
        "formatting: failed to parse value `'99999999999999999999'` in match rule for `'{99999999999999999999} big'`, number too large to fit in target type.",
    );
    assert_err(
        "{..} any | other",
        ctx(&[], Some(1)),
        "formatting: failed to parse `'to'` value in range-to rule for `'{..} any'`, cannot parse integer from empty string.",
    );
    assert_err(
        "{ 2..4 } some | other",
        ctx(&[], Some(1)),
        "formatting: failed to parse `'from'` value in range rule for `'{ 2..4 } some'`, invalid digit found in string.",
    );
}

#[test]
fn pipe_inside_a_grapheme_does_not_split() {
    // The combining accent joins the first `|` into one grapheme cluster.
    let message = "{0} zero |\u{301}x | other";
    assert_ok(message, ctx(&[], Some(5)), "other");
    let pm = parse_plural_messages(message).unwrap();
    assert_eq!(pm.rules.len(), 1);
    assert_eq!(pm.rules[0].0, "zero |\u{301}x");
}

#[test]
fn segments_of_graphemes() {
    let graphemes = vec!["{", "1", "}", " ", "a", " ", "|", "|", " ", "b", " ", "|", " ", "c"];
    let segments = split_segments(&graphemes);
    assert_eq!(segments, vec!["{1} a || b".to_string(), "c".to_string()]);
    let pm = plural_messages_from_segments(&segments).unwrap();
    assert_eq!(pm.matching(1), "a || b");
    assert_eq!(pm.matching(2), "c");
    assert!(plural_messages_from_segments(&vec![]).is_err());
}

#[test]
fn rule_segments() {
    let (message, rule) = parse_rule_segment("{1, 3 ,5}  odd ").unwrap();
    assert_eq!(message, "odd");
    assert!(rule.matches(3));
    assert!(!rule.matches(4));
    assert!(matches!(rule, Rule::Match { ref values } if values == &vec![1, 3, 5]));
    let (_, rule) = parse_rule_segment("{-2..+2} x").unwrap();
    assert!(matches!(rule, Rule::Range { from: -2, to: 2 }));
    let (_, rule) = parse_rule_segment("{7..} x").unwrap();
    assert!(matches!(rule, Rule::RangeFrom { from: 7 }));
}

#[test]
fn rule_display() {
    assert_eq!(Rule::RangeTo { to: -3 }.to_string(), "{..-3}");
    assert_eq!(Rule::RangeFrom { from: 10 }.to_string(), "{10..}");
    assert_eq!(Rule::Range { from: 2, to: 4 }.to_string(), "{2..4}");
    assert_eq!(Rule::Match { values: vec![1, 2, 30] }.to_string(), "{1, 2, 30}");
    assert_eq!(Rule::Match { values: vec![] }.to_string(), "{}");
}

#[test]
fn no_escape_no_brace() {
    let out = format("{a} and {0} and {?}", &ctx(&[("a", 1)], Some(-4))).unwrap();
    assert!(!out.contains('{') && !out.contains('}'));
    assert_eq!(out, "1 and 1 and -4");
}
