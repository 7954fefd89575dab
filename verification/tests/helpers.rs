//! Tests of the text-side helpers: failure-to-text collapsing, heading
//! prefixes, and string fallbacks.

use rwmap::err_tostring::ErrToString as EarlierErrToString;
use rwmap::{ErrToString, HeadingError, OrAsStr, ToText};

#[test]
fn err_to_string_keeps_success() {
    let r: Result<u32, String> = Ok(5);
    assert_eq!(r.err_to_string(), Ok(5));
}

#[test]
fn err_to_string_renders_failure() {
    let r: Result<u32, String> = Err(String::from("boom"));
    assert_eq!(r.err_to_string(), Err(String::from("boom")));
}

#[test]
fn err_tostring_earlier_spelling() {
    let ok: Result<i8, String> = Ok(-3);
    assert_eq!(ok.err_tostring(), Ok(-3));
    let bad: Result<i8, String> = Err(String::from("no"));
    assert_eq!(bad.err_tostring(), Err(String::from("no")));
}

#[test]
fn heading_error_prefixes_failure() {
    let bad: Result<u32, String> = Err(String::from("cause"));
    let r = bad.heading_error(&String::from("context: "));
    assert_eq!(r, Err(String::from("context: cause")));
    let ok: Result<u32, String> = Ok(1);
    assert_eq!(ok.heading_error(&String::from("context: ")), Ok(1));
}

#[test]
fn heading_error_else_is_lazy() {
    let bad: Result<u32, String> = Err(String::from("cause"));
    let r = bad.heading_error_else(|| String::from("late: "));
    assert_eq!(r, Err(String::from("late: cause")));
    let ok: Result<u32, String> = Ok(2);
    assert_eq!(ok.heading_error_else(|| String::from("late: ")), Ok(2));
}

#[test]
fn to_text_of_string_is_identity() {
    let s = String::from("plain");
    assert_eq!(s.to_text(), "plain");
}

#[test]
fn or_as_str_on_option_ref() {
    let some: Option<String> = Some(String::from("inner"));
    let none: Option<String> = None;
    assert_eq!((&some).or_as_str("fallback"), "inner");
    assert_eq!((&none).or_as_str("fallback"), "fallback");
    assert_eq!((&none).or_as_str_else(|| "late"), "late");
}

#[test]
fn or_as_str_on_ref_option() {
    let owned = String::from("inner");
    let some: Option<&String> = Some(&owned);
    let none: Option<&String> = None;
    assert_eq!(some.or_as_str("fallback"), "inner");
    assert_eq!(none.or_as_str("fallback"), "fallback");
    assert_eq!(none.or_as_str_else(|| "late"), "late");
}

#[test]
fn or_as_str_on_str_option() {
    let some: Option<&str> = Some("inner");
    let none: Option<&str> = None;
    assert_eq!(some.or_as_str("fallback"), "inner");
    assert_eq!(none.or_as_str("fallback"), "fallback");
    assert_eq!(some.or_as_str_else(|| "late"), "inner");
    assert_eq!(none.or_as_str_else(|| "late"), "late");
}
