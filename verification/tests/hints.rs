use toastify::{parse_hint, HintError, HintKind};

#[test]
fn int_triple_parses() {
    let h = parse_hint("int:x:5").unwrap();
    assert!(matches!(h.kind, HintKind::Int));
    assert_eq!(h.name, "x");
    assert_eq!(h.value, "5");
}

#[test]
fn double_triple_parses() {
    let h = parse_hint("double:ratio:0.5").unwrap();
    assert!(matches!(h.kind, HintKind::Double));
    assert_eq!(h.name, "ratio");
    assert_eq!(h.value, "0.5");
}

#[test]
fn string_triple_parses() {
    let h = parse_hint("string:note:hello world").unwrap();
    assert!(matches!(h.kind, HintKind::Str));
    assert_eq!(h.name, "note");
    assert_eq!(h.value, "hello world");
}

#[test]
fn byte_triple_parses() {
    let h = parse_hint("byte:b:255").unwrap();
    assert!(matches!(h.kind, HintKind::Byte));
    assert_eq!(h.name, "b");
    assert_eq!(h.value, "255");
}

#[test]
fn empty_name_and_value_parse() {
    let h = parse_hint("string::").unwrap();
    assert_eq!(h.name, "");
    assert_eq!(h.value, "");
}

#[test]
fn one_segment_fails() {
    assert_eq!(parse_hint("abc"), Err(HintError::WrongSegmentCount));
}

#[test]
fn two_segments_fail() {
    assert_eq!(parse_hint("a:b"), Err(HintError::WrongSegmentCount));
}

#[test]
fn four_segments_fail() {
    assert_eq!(parse_hint("int:x:5:9"), Err(HintError::WrongSegmentCount));
}

#[test]
fn five_segments_fail() {
    assert_eq!(parse_hint("a:b:c:d:e"), Err(HintError::WrongSegmentCount));
}

#[test]
fn empty_string_fails() {
    assert_eq!(parse_hint(""), Err(HintError::WrongSegmentCount));
}

#[test]
fn unknown_type_fails() {
    assert_eq!(parse_hint("float:x:5"), Err(HintError::UnknownValueType));
}

#[test]
fn empty_type_fails() {
    assert_eq!(parse_hint("::v"), Err(HintError::UnknownValueType));
}

#[test]
fn pattern_round_trips() {
    for text in ["int:x:5", "double:ratio:0.5", "string:note:some text", "byte:b:0"] {
        let h = parse_hint(text).unwrap();
        assert_eq!(h.pattern(), text);
    }
}
