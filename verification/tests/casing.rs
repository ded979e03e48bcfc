//! Casing classification and conversion behavior.

use rua_gen::models::RuaCase;
use rua_gen::models::RuaName;
use rua_gen::nodes::Span;
use rua_gen::utils::{
    is_camel_case, is_pascal_case, is_snake_case, parse_usize_digits, to_camel_case,
    to_pascal_case, to_snake_case, usize_to_string,
};

fn sp(line: usize) -> Span {
    Span { start_line: line, start_col: 0, end_line: line, end_col: 5 }
}

#[test]
fn snake_identifiers_classify_as_snake() {
    let n = RuaName::try_from_ident("snake_name", &sp(1)).unwrap();
    assert_eq!(n.get_name(), "snake_name");
    assert!(n.check());
    assert!(is_snake_case("snake_name"));
    assert!(!is_camel_case("snake_name"));
    assert!(!is_pascal_case("snake_name"));
}

#[test]
fn camel_identifiers_classify_as_camel() {
    let n = RuaName::try_from_ident("camelName", &sp(1)).unwrap();
    assert_eq!(n.get_name(), "camelName");
    assert!(n.check());
    assert!(is_camel_case("camelName"));
    assert!(!is_snake_case("camelName"));
    assert!(!is_pascal_case("camelName"));
}

#[test]
fn pascal_identifiers_classify_as_pascal() {
    let n = RuaName::try_from_ident("PascalName", &sp(1)).unwrap();
    assert_eq!(n.get_name(), "PascalName");
    assert!(n.check());
    assert!(is_pascal_case("PascalName"));
    assert!(!is_snake_case("PascalName"));
    assert!(!is_camel_case("PascalName"));
}

#[test]
fn screaming_snake_fails_classification() {
    let r = RuaName::try_from_ident("SCREAMING_SNAKE", &sp(2));
    assert!(r.is_err());
    let e = r.unwrap_err();
    assert_eq!(
        e.message().as_deref(),
        Some("The name of the ident is not a valid case: SCREAMING_SNAKE")
    );
    assert_eq!(e.source_type().as_deref(), Some("Ident"));
    assert_eq!(e.target_type().as_deref(), Some("RuaName"));
}

#[test]
fn digits_only_fails_classification() {
    assert!(RuaName::try_from_ident("123", &sp(3)).is_err());
    assert!(RuaName::try_from_ident("", &sp(3)).is_err());
}

#[test]
fn snake_case_conversion_exact() {
    assert_eq!(to_snake_case("FooBar"), "foo_bar");
    assert_eq!(to_snake_case("fooBar"), "foo_bar");
    assert_eq!(to_snake_case("foo_bar"), "foo_bar");
    assert_eq!(to_snake_case(""), "");
}

#[test]
fn camel_case_conversion_exact() {
    assert_eq!(to_camel_case("foo_bar"), "fooBar");
    assert_eq!(to_camel_case("foo__bar"), "fooBar");
    assert_eq!(to_camel_case("Foo_bar"), "fooBar");
    assert_eq!(to_camel_case(""), "");
}

#[test]
fn pascal_case_conversion_exact() {
    assert_eq!(to_pascal_case("foo_bar"), "FooBar");
    assert_eq!(to_pascal_case("a_b"), "AB");
    assert_eq!(to_pascal_case(""), "");
}

#[test]
fn name_conversion_between_casings() {
    let n = RuaName::new("foo_bar", RuaCase::SnakeCase);
    let p = n.convert(RuaCase::PascalCase);
    assert_eq!(p.get_name(), "FooBar");
    assert!(p.check());
    assert_eq!(n.get_name_with_case(&RuaCase::CamelCase), "fooBar");
}

#[test]
fn mismatched_casing_tag_is_reported_by_check() {
    let n = RuaName::new("foo_bar", RuaCase::CamelCase);
    assert!(!n.check());
}

#[test]
fn mismatched_casing_tag_is_recorded_at_construction() {
    let bad = RuaName::new("foo_bar", RuaCase::CamelCase);
    assert!(!bad.case_matches());
    let good = RuaName::new("foo_bar", RuaCase::SnakeCase);
    assert!(good.case_matches());
    let converted = bad.convert(RuaCase::PascalCase);
    assert!(converted.case_matches());
    assert_eq!(converted.get_name(), "FooBar");
}

#[test]
fn name_render_shows_case_and_name() {
    let n = RuaName::new("foo_bar", RuaCase::SnakeCase);
    assert_eq!(n.render(), "snake_case(foo_bar)");
    let c = RuaName::new("fooBar", RuaCase::CamelCase);
    assert_eq!(c.render(), "camelCase(fooBar)");
}

#[test]
fn decimal_rendering_exact() {
    assert_eq!(usize_to_string(0), "0");
    assert_eq!(usize_to_string(7), "7");
    assert_eq!(usize_to_string(12345), "12345");
}

#[test]
fn digit_parsing_round_trips() {
    assert_eq!(parse_usize_digits("0"), Some(0));
    assert_eq!(parse_usize_digits("16"), Some(16));
    assert_eq!(parse_usize_digits("18446744073709551615"), Some(usize::MAX));
    assert_eq!(parse_usize_digits("18446744073709551616"), None);
    assert_eq!(parse_usize_digits(""), None);
    assert_eq!(parse_usize_digits("12x"), None);
}
