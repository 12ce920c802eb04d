use hangul_mcp::params::{InsertTableColumnParams, InsertTableRowParams, ReplaceTextParams, SearchTextParams};

#[test]
fn documented_defaults() {
    let s = SearchTextParams { doc_id: "doc-1".to_string(), query: "q".to_string(), case_sensitive: None, include_cells: None };
    assert!(!s.case_sensitive_or_default());
    assert!(s.include_cells_or_default());
    let s = SearchTextParams { case_sensitive: Some(true), include_cells: Some(false), ..s };
    assert!(s.case_sensitive_or_default());
    assert!(!s.include_cells_or_default());

    let r = ReplaceTextParams {
        doc_id: "doc-1".to_string(),
        query: "마커원본".to_string(),
        replacement: "마커치환".to_string(),
        all: None,
        case_sensitive: None,
    };
    assert!(r.all_or_default());
    assert!(!r.case_sensitive_or_default());
    let r = ReplaceTextParams { all: Some(false), ..r };
    assert!(!r.all_or_default());

    let row = InsertTableRowParams { doc_id: "doc-1".to_string(), section: 0, para: 0, control: 0, row: 1, below: None };
    assert!(row.below_or_default());
    let row = InsertTableRowParams { below: Some(false), ..row };
    assert!(!row.below_or_default());
    let col = InsertTableColumnParams { doc_id: "doc-1".to_string(), section: 0, para: 0, control: 0, col: 2, right: None };
    assert!(col.right_or_default());
}
