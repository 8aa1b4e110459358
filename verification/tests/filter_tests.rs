use firehose_indexer::filter::{filter, filter_document, same_text, FilterOutcome, SkipReason};

const HELLO_WORLD: &str = r#"{"kind":"commit","commit":{"operation":"create","record":{"text":"hello world","langs":["en"]}}}"#;

fn skip_reason(raw: &str) -> SkipReason {
    match filter(raw, "en") {
        FilterOutcome::Skip(reason) => reason,
        other => panic!("expected a skip, got {:?}", other),
    }
}

#[test]
fn test_build() {
    let config = firehose_indexer::pipeline::Config::standard();
    assert_eq!(config.dimension, 300);
}

#[test]
fn accepts_english_post_creation() {
    match filter(HELLO_WORLD, "en") {
        FilterOutcome::Accept(record) => {
            assert_eq!(record.text, "hello world");
            assert_eq!(record.lang, "en");
            let expected: serde_json::Value = serde_json::from_str(HELLO_WORLD).unwrap();
            assert_eq!(record.document, expected);
        }
        other => panic!("expected an accept, got {:?}", other),
    }
}

#[test]
fn rejects_two_languages() {
    let raw = r#"{"kind":"commit","commit":{"operation":"create","record":{"text":"hello world","langs":["en","fr"]}}}"#;
    assert_eq!(skip_reason(raw), SkipReason::LangsShape);
}

#[test]
fn rejects_delete_at_the_operation_test() {
    let raw = r#"{"kind":"commit","commit":{"operation":"delete","record":{"text":"hello world","langs":["en"]}}}"#;
    assert_eq!(skip_reason(raw), SkipReason::NotCreate);
}

#[test]
fn rejects_other_kinds() {
    let raw = r#"{"kind":"identity","commit":{"operation":"create","record":{"text":"hello world","langs":["en"]}}}"#;
    assert_eq!(skip_reason(raw), SkipReason::NotCommit);
    assert_eq!(skip_reason(r#"{"commit":{"operation":"create"}}"#), SkipReason::NotCommit);
    assert_eq!(skip_reason(r#"{"kind":7}"#), SkipReason::NotCommit);
    assert_eq!(skip_reason(r#"["kind","commit"]"#), SkipReason::NotCommit);
    assert_eq!(skip_reason("12"), SkipReason::NotCommit);
}

#[test]
fn kind_is_tested_before_operation() {
    let raw = r#"{"kind":"account","commit":{"operation":"delete"}}"#;
    assert_eq!(skip_reason(raw), SkipReason::NotCommit);
}

#[test]
fn rejects_missing_commit_or_operation() {
    assert_eq!(skip_reason(r#"{"kind":"commit"}"#), SkipReason::NotCreate);
    assert_eq!(skip_reason(r#"{"kind":"commit","commit":{}}"#), SkipReason::NotCreate);
    assert_eq!(skip_reason(r#"{"kind":"commit","commit":"create"}"#), SkipReason::NotCreate);
}

#[test]
fn rejects_absent_or_misshapen_langs() {
    let absent = r#"{"kind":"commit","commit":{"operation":"create","record":{"text":"hello world"}}}"#;
    assert_eq!(skip_reason(absent), SkipReason::LangsShape);
    let string = r#"{"kind":"commit","commit":{"operation":"create","record":{"text":"hello world","langs":"en"}}}"#;
    assert_eq!(skip_reason(string), SkipReason::LangsShape);
    let empty = r#"{"kind":"commit","commit":{"operation":"create","record":{"text":"hello world","langs":[]}}}"#;
    assert_eq!(skip_reason(empty), SkipReason::LangsShape);
    let no_record = r#"{"kind":"commit","commit":{"operation":"create"}}"#;
    assert_eq!(skip_reason(no_record), SkipReason::LangsShape);
}

#[test]
fn rejects_another_language() {
    let raw = r#"{"kind":"commit","commit":{"operation":"create","record":{"text":"bonjour","langs":["fr"]}}}"#;
    assert_eq!(skip_reason(raw), SkipReason::WrongLanguage);
    let number = r#"{"kind":"commit","commit":{"operation":"create","record":{"text":"hello","langs":[1]}}}"#;
    assert_eq!(skip_reason(number), SkipReason::WrongLanguage);
    let longer = r#"{"kind":"commit","commit":{"operation":"create","record":{"text":"hello","langs":["eng"]}}}"#;
    assert_eq!(skip_reason(longer), SkipReason::WrongLanguage);
}

#[test]
fn target_language_is_configurable() {
    let raw = r#"{"kind":"commit","commit":{"operation":"create","record":{"text":"bonjour","langs":["fr"]}}}"#;
    match filter(raw, "fr") {
        FilterOutcome::Accept(record) => {
            assert_eq!(record.text, "bonjour");
            assert_eq!(record.lang, "fr");
        }
        other => panic!("expected an accept, got {:?}", other),
    }
    assert!(matches!(filter(HELLO_WORLD, "fr"), FilterOutcome::Skip(SkipReason::WrongLanguage)));
}

#[test]
fn rejects_empty_text() {
    let raw = r#"{"kind":"commit","commit":{"operation":"create","record":{"text":"","langs":["en"]}}}"#;
    assert_eq!(skip_reason(raw), SkipReason::NoText);
}

#[test]
fn rejects_missing_or_non_string_text() {
    let missing = r#"{"kind":"commit","commit":{"operation":"create","record":{"langs":["en"]}}}"#;
    assert_eq!(skip_reason(missing), SkipReason::NoText);
    let number = r#"{"kind":"commit","commit":{"operation":"create","record":{"text":5,"langs":["en"]}}}"#;
    assert_eq!(skip_reason(number), SkipReason::NoText);
    let null = r#"{"kind":"commit","commit":{"operation":"create","record":{"text":null,"langs":["en"]}}}"#;
    assert_eq!(skip_reason(null), SkipReason::NoText);
}

#[test]
fn whitespace_text_is_not_trimmed() {
    let raw = r#"{"kind":"commit","commit":{"operation":"create","record":{"text":" ","langs":["en"]}}}"#;
    match filter(raw, "en") {
        FilterOutcome::Accept(record) => assert_eq!(record.text, " "),
        other => panic!("expected an accept, got {:?}", other),
    }
}

#[test]
fn malformed_json_is_a_parse_error() {
    assert!(matches!(filter("{not json", "en"), FilterOutcome::ParseError));
    assert!(matches!(filter("", "en"), FilterOutcome::ParseError));
    assert!(matches!(filter(r#"{"kind":"commit"} trailing"#, "en"), FilterOutcome::ParseError));
}

#[test]
fn filter_document_agrees_with_filter() {
    let doc: serde_json::Value = serde_json::from_str(HELLO_WORLD).unwrap();
    match filter_document(doc.clone(), "en") {
        FilterOutcome::Accept(record) => {
            assert_eq!(record.text, "hello world");
            assert_eq!(record.document, doc);
        }
        other => panic!("expected an accept, got {:?}", other),
    }
    assert!(matches!(
        filter_document(serde_json::Value::Null, "en"),
        FilterOutcome::Skip(SkipReason::NotCommit)
    ));
}

#[test]
fn non_ascii_text_is_kept() {
    let raw = r#"{"kind":"commit","commit":{"operation":"create","record":{"text":"café ☕","langs":["en"]}}}"#;
    match filter(raw, "en") {
        FilterOutcome::Accept(record) => assert_eq!(record.text, "café ☕"),
        other => panic!("expected an accept, got {:?}", other),
    }
}

#[test]
fn same_text_compares_whole_strings() {
    assert!(same_text("commit", "commit"));
    assert!(!same_text("commit", "commits"));
    assert!(!same_text("", "a"));
    assert!(same_text("", ""));
}
