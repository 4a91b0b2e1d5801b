use mnn::patch::{
    contains_text, first_line_with, halide_search, patch_halide_lines, patch_tracing_macros,
    tracing_search,
};
use mnn::text::replace_text;

#[test]
fn text_search() {
    assert!(contains_text("abcdef", "cde"));
    assert!(contains_text("abc", ""));
    assert!(contains_text("abc", "abc"));
    assert!(!contains_text("abc", "abcd"));
    assert!(!contains_text("abcabd", "abe"));
}

#[test]
fn first_matching_line() {
    let lines: Vec<String> = vec!["x".into(), "yz".into(), "zz".into()];
    assert_eq!(first_line_with(&lines, "z"), Some(1));
    assert_eq!(first_line_with(&lines, "q"), None);
}

#[test]
fn halide_header_patch() {
    let lines: Vec<String> = vec![
        "a".into(),
        "struct halide_type_t {".into(),
        format!("    {}", halide_search()),
        "b1".into(),
        "b2".into(),
        "b3".into(),
        "c".into(),
    ];
    let out = patch_halide_lines(&lines).unwrap();
    let expected: Vec<String> = vec!["a".into(), format!("    {}", halide_search()), "c".into()];
    assert_eq!(out, expected);
}

#[test]
fn header_without_the_line_is_left_alone() {
    let lines: Vec<String> = vec!["a".into(), "b".into()];
    assert!(patch_halide_lines(&lines).is_none());
}

#[test]
fn replace_from_the_left() {
    assert_eq!(replace_text("a-b-c", "-", "+"), "a+b+c");
    assert_eq!(replace_text("aaaa", "aa", "b"), "bb");
    assert_eq!(replace_text("aaa", "aa", "b"), "ba");
    assert_eq!(replace_text("xyz", "q", "r"), "xyz");
    assert_eq!(replace_text("", "q", "r"), "");
    assert_eq!(replace_text("abab", "ab", ""), "");
    assert_eq!(replace_text("ab", "abc", "z"), "ab");
}

#[test]
fn tracing_macros_are_replaced() {
    let search = tracing_search();
    assert!(search.starts_with("#define MNN_PRINT(format, ...) printf("));
    assert!(search.contains("\n#define MNN_ERROR(format, ...) printf(format, ##__VA_ARGS__)"));
    let header = format!("#ifndef MNNDefine_h\n{}\n#define MNN_CHECK(x)\n", search);
    let patched = patch_tracing_macros(&header, "LOGGED");
    assert_eq!(patched, "#ifndef MNNDefine_h\nLOGGED\n#define MNN_CHECK(x)\n");
    let untouched = "#define MNN_PRINT(format, ...) puts(format)\n";
    assert_eq!(patch_tracing_macros(untouched, "LOGGED"), untouched);
}
