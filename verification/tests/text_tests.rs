use hangul_mcp::decimal::decimal_string;
use hangul_mcp::doc_id::{format_doc_id, parse_doc_id};
use hangul_mcp::error::{ErrorKind, ToolError};
use hangul_mcp::text::{contains_text, join_with_newlines, preview};

#[test]
fn decimal_text_of_numbers() {
    assert_eq!(decimal_string(0), "0");
    assert_eq!(decimal_string(7), "7");
    assert_eq!(decimal_string(10), "10");
    assert_eq!(decimal_string(1234567890), "1234567890");
    assert_eq!(decimal_string(u64::MAX), "18446744073709551615");
}

#[test]
fn handle_round_trip() {
    for n in [0u64, 1, 9, 10, 999, 123456789, u64::MAX] {
        let id = format_doc_id(n);
        assert_eq!(id, format!("doc-{n}"));
        assert_eq!(parse_doc_id(&id), Some(n));
    }
}

#[test]
fn handle_parsing_rejects_other_texts() {
    for bad in [
        "", "doc", "doc-", "doc-01", "doc-00", "doc--1", "doc-1a", "doc- 1", "DOC-1", "xdoc-1",
        "doc-18446744073709551616", "doc-99999999999999999999", "doc-１",
    ] {
        assert_eq!(parse_doc_id(bad), None, "{bad}");
    }
    assert_eq!(parse_doc_id("doc-18446744073709551615"), Some(u64::MAX));
}

#[test]
fn preview_counts_characters_not_bytes() {
    let text = "가".repeat(81);
    let (p, n) = preview(&text, 80);
    assert_eq!(n, 81);
    assert_eq!(p, "가".repeat(80));
    let (p, n) = preview("짧은 문단", 80);
    assert_eq!(p, "짧은 문단");
    assert_eq!(n, 5);
    let (p, n) = preview("", 80);
    assert_eq!(p, "");
    assert_eq!(n, 0);
}

#[test]
fn lines_are_joined_with_newlines() {
    assert_eq!(join_with_newlines(&vec![]), "");
    assert_eq!(join_with_newlines(&vec!["a".to_string()]), "a");
    assert_eq!(
        join_with_newlines(&vec!["첫".to_string(), "".to_string(), "셋".to_string()]),
        "첫\n\n셋"
    );
}

#[test]
fn substring_search() {
    assert!(contains_text("{\"ok\":true,\"x\":1}", "\"ok\":true"));
    assert!(!contains_text("{\"ok\":false}", "\"ok\":true"));
    assert!(contains_text("abc", ""));
    assert!(!contains_text("ab", "abc"));
    assert!(contains_text("가나다", "나다"));
}

#[test]
fn error_messages_and_kinds() {
    let cases = vec![
        (ToolError::UnknownDoc { doc_id: "doc-3".to_string() }, "알 수 없는 doc_id: doc-3 (open_document로 먼저 여세요)", ErrorKind::InvalidParams),
        (ToolError::SectionOutOfRange { section: 4, total: 2 }, "구역 4 범위 초과 (총 2개)", ErrorKind::InvalidParams),
        (ToolError::ParaRangeInvalid { start: 5, end: 3, total: 10 }, "문단 범위 5..=3 잘못됨 (총 10개)", ErrorKind::InvalidParams),
        (ToolError::ParaNotFound { section: 0, para: 12 }, "구역 0 문단 12 없음", ErrorKind::InvalidParams),
        (ToolError::NotATable { control: 1 }, "컨트롤 1은(는) 표가 아님", ErrorKind::InvalidParams),
        (ToolError::ControlOutOfRange { control: 3, total: 1 }, "컨트롤 인덱스 3 범위 초과 (총 1개)", ErrorKind::InvalidParams),
        (ToolError::FormValueMissing, "value, text, caption 중 최소 하나를 지정해야 한다", ErrorKind::InvalidParams),
        (ToolError::NoFormAt { section: 1, para: 2, control: 3 }, "(1, 2, 3) 위치에 양식 개체 없음", ErrorKind::InvalidParams),
        (ToolError::Engine { detail: "엔진 오류".to_string() }, "엔진 오류", ErrorKind::Internal),
        (ToolError::FileRead { path: "/x.hwpx".to_string(), detail: "not found".to_string() }, "파일 읽기 실패 /x.hwpx: not found", ErrorKind::Internal),
        (ToolError::FileWrite { path: "/y.hwpx".to_string(), detail: "denied".to_string() }, "파일 쓰기 실패 /y.hwpx: denied", ErrorKind::Internal),
    ];
    for (e, msg, kind) in cases {
        assert_eq!(e.message(), msg);
        assert_eq!(e.kind(), kind);
    }
    let e = ToolError::unknown_doc("doc-77");
    assert!(e.message().contains("doc-77"));
}
