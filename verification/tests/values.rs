//! Texts, JSON values, and readings.

use fpsmaxxing::json::Json;
use fpsmaxxing::reading::Reading;
use fpsmaxxing::text::{
    decimal, is_blank, parse_decimal, quote, same_text, signed_decimal, MAX_QUOTED_CHARS,
};

#[test]
fn numbers_are_written_in_decimal() {
    for number in [0, 7, 10, 4096, u64::MAX] {
        assert_eq!(decimal(number), number.to_string());
        assert_eq!(parse_decimal(&number.to_string()), Some(number));
    }
    for number in [0, -1, 42, i64::MIN, i64::MAX] {
        assert_eq!(signed_decimal(number), number.to_string());
    }
}

#[test]
fn numbers_are_read_as_an_unsigned_parse_does() {
    for text in [
        "",
        "+",
        "+5",
        "-0",
        "007",
        " 7",
        "7 ",
        "18446744073709551615",
        "18446744073709551616",
        "99999999999999999999999",
        "1_000",
        "\u{0664}",
    ] {
        assert_eq!(parse_decimal(text), text.parse::<u64>().ok(), "{text:?}");
    }
}

#[test]
fn blankness_is_what_trimming_leaves_nothing_of() {
    for text in [
        "",
        " ",
        "\t\r\n",
        "\u{85}\u{a0}\u{1680}\u{2000}\u{200a}\u{2028}\u{2029}\u{202f}\u{205f}\u{3000}",
        "\u{200b}",
        "\u{feff}",
        " x ",
    ] {
        assert_eq!(is_blank(text), text.trim().is_empty(), "{text:?}");
    }
}

#[test]
fn a_quotation_is_cut_at_its_limit() {
    let short = "x".repeat(MAX_QUOTED_CHARS);
    assert_eq!(quote(&short), short);
    let long = "\u{e9}".repeat(MAX_QUOTED_CHARS + 1);
    let cut = quote(&long);
    assert_ne!(cut, long);
    assert!(cut.starts_with(&"\u{e9}".repeat(MAX_QUOTED_CHARS - 1)));
    assert!(same_text("a", "a") && !same_text("a", "b") && !same_text("a", "aa"));
}

#[test]
fn members_are_found_by_name() {
    let json = Json::object()
        .with("value", Json::Unsigned(7))
        .with("name", Json::text("knob"));
    assert_eq!(json.u64_member("value"), Some(7));
    assert_eq!(json.u64_member("name"), None);
    assert_eq!(json.get("name").and_then(Json::as_str), Some("knob"));
    assert!(json.get("absent").is_none());
    assert!(Json::Unsigned(7).get("value").is_none());
    assert!(json.is_object() && !Json::Null.is_object());
    assert!(json.has_besides("value"));
    assert!(!Json::object()
        .with("value", Json::Null)
        .has_besides("value"));
    assert_eq!(Json::Negative(-1).as_u64(), None);
    assert_eq!(Json::Decimal("7.0".to_owned()).as_u64(), None);
    assert_eq!(Json::Decimal("7.0".to_owned()).as_str(), None);
}

#[test]
fn objects_are_equal_whatever_their_order() {
    let a = Json::object()
        .with("x", Json::Bool(true))
        .with("y", Json::Array(vec![Json::Null, Json::Unsigned(1)]));
    let b = Json::object()
        .with("y", Json::Array(vec![Json::Null, Json::Unsigned(1)]))
        .with("x", Json::Bool(true));
    assert_eq!(a, b);
    assert_eq!(a, a.clone());
    let c = Json::object()
        .with("y", Json::Array(vec![Json::Unsigned(1), Json::Null]))
        .with("x", Json::Bool(true));
    assert_ne!(a, c);
    assert_ne!(a, Json::object().with("x", Json::Bool(true)));
    assert_ne!(Json::Unsigned(1), Json::Decimal("1.0".to_owned()));
}

#[test]
fn readings_compare_as_floats_do() {
    let numbers = [
        0.0,
        -0.0,
        1.0,
        -1.0,
        1.5,
        -2.5,
        90.0,
        90.1,
        f64::MIN_POSITIVE,
        5e-324,
        -5e-324,
        f64::MAX,
        f64::MIN,
        f64::INFINITY,
        f64::NEG_INFINITY,
        f64::NAN,
        -f64::NAN,
    ];
    let reading = |value: f64| Reading {
        bits: value.to_bits(),
    };
    for a in numbers {
        assert_eq!(reading(a).is_finite(), a.is_finite(), "{a}");
        assert_eq!(reading(a).is_nan(), a.is_nan(), "{a}");
        for b in numbers {
            assert_eq!(reading(a).exceeds(reading(b)), a > b, "{a} > {b}");
            assert_eq!(reading(a).reaches(reading(b)), a >= b, "{a} >= {b}");
            assert_eq!(reading(a).same(reading(b)), a == b, "{a} == {b}");
        }
    }
}

#[test]
fn halves_are_exact() {
    for halves in [
        0u64,
        1,
        2,
        3,
        119,
        120,
        8_589_934_590,
        (1 << 53) - 1,
    ] {
        let expected = halves as f64 / 2.0;
        assert_eq!(Reading::from_halves(halves).bits, expected.to_bits());
    }
    for whole in [0u64, 1, 60, 90, 250, 4_294_967_295] {
        assert_eq!(Reading::whole(whole).bits, (whole as f64).to_bits());
    }
    assert_eq!(Reading::zero().bits, 0.0f64.to_bits());
}
