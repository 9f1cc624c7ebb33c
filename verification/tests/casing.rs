use piperize::casing::check_charset;
use piperize::casing::to_camel_case;

#[test]
fn converts_snake_case_name() {
    assert_eq!(to_camel_case("foo_this"), "FooThis");
}

#[test]
fn converts_two_word_name() {
    assert_eq!(to_camel_case("my_add"), "MyAdd");
}

#[test]
fn digits_pass_through_without_forced_case_flip() {
    assert_eq!(to_camel_case("http2Request"), "Http2Request");
}

#[test]
fn separators_only_yields_empty() {
    assert_eq!(to_camel_case("___"), "");
}

#[test]
fn empty_input_yields_empty() {
    assert_eq!(to_camel_case(""), "");
}

#[test]
fn already_camel_case_is_unchanged() {
    assert_eq!(to_camel_case("FooBar2"), "FooBar2");
}

#[test]
fn leading_and_repeated_separators_are_dropped() {
    assert_eq!(to_camel_case("_foo__bar_"), "FooBar");
}

#[test]
fn upper_case_after_separator_is_kept() {
    assert_eq!(to_camel_case("foo_Bar"), "FooBar");
}

#[test]
fn digit_after_separator_is_kept() {
    assert_eq!(to_camel_case("foo_2bar"), "Foo2bar");
}

#[test]
fn conversion_is_idempotent_on_its_own_output() {
    let once = to_camel_case("foo_bar_baz");
    let twice = to_camel_case(&once);
    assert_eq!(twice, once);
}

#[test]
fn conversion_is_deterministic_across_calls() {
    let first = to_camel_case("some_long_name2");
    let second = to_camel_case("some_long_name2");
    assert_eq!(first, second);
}

#[test]
fn charset_accepts_letters_digits_and_separators() {
    assert!(check_charset("abc_XYZ_012"));
    assert!(check_charset(""));
    assert!(check_charset("___"));
}

#[test]
fn charset_rejects_characters_outside_the_repertoire() {
    assert!(!check_charset("foo-bar"));
    assert!(!check_charset("foo bar"));
    assert!(!check_charset("f\u{e9}e"));
}
