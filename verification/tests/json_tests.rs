use pushd_core::json::{json_array_of_raw, json_array_of_strings, json_string_of};

#[test]
fn plain_string_is_quoted() {
    assert_eq!(json_string_of("abc"), "\"abc\"");
    assert_eq!(json_string_of(""), "\"\"");
}

#[test]
fn quotes_and_backslashes_are_escaped() {
    assert_eq!(json_string_of("a\"b"), "\"a\\\"b\"");
    assert_eq!(json_string_of("a\\b"), "\"a\\\\b\"");
}

#[test]
fn control_characters_are_escaped() {
    assert_eq!(json_string_of("a\nb\tc"), "\"a\\nb\\tc\"");
    assert_eq!(json_string_of("\u{08}\u{0c}\r"), "\"\\b\\f\\r\"");
    assert_eq!(json_string_of("\u{01}\u{1f}"), "\"\\u0001\\u001f\"");
}

#[test]
fn unicode_passes_through_unescaped() {
    assert_eq!(json_string_of("(스포일러)"), "\"(스포일러)\"");
}

#[test]
fn encoding_matches_the_standard_encoder() {
    let samples = [
        "plain",
        "",
        "with \"quotes\" and \\slashes\\",
        "line\nbreaks\tand\rmore",
        "control \u{01}\u{02}\u{1f} chars",
        "한국어와 emoji 🦀",
        "[[spoiler]]",
    ];
    for s in samples {
        let expected = serde_json::to_string(s).unwrap();
        assert_eq!(json_string_of(s), expected, "encoding of {:?}", s);
    }
}

#[test]
fn string_arrays() {
    assert_eq!(json_array_of_strings(&vec![]), "[]");
    assert_eq!(json_array_of_strings(&vec![String::from("a")]), "[\"a\"]");
    assert_eq!(
        json_array_of_strings(&vec![String::from("a"), String::from("b\"c")]),
        "[\"a\",\"b\\\"c\"]"
    );
}

#[test]
fn raw_arrays_splice_verbatim() {
    assert_eq!(json_array_of_raw(&vec![]), "[]");
    assert_eq!(
        json_array_of_raw(&vec![String::from("{\"a\":1}"), String::from("2")]),
        "[{\"a\":1},2]"
    );
}
