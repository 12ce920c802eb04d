use hangul_mcp::error::ToolError;
use hangul_mcp::forms::{check_form_result, form_value_request};
use hangul_mcp::model::{
    form_type_str, CellInfo, ControlInfo, FormInfo, FormType, ParagraphInfo, SectionInfo, TableInfo,
};
use hangul_mcp::params::{GetTableParams, GetTextParams, SetCellTextParams, SetFormValueParams};
use hangul_mcp::report::{list_forms, paragraph_counts, structure, table_report, text_report, TableRef};

fn para(text: &str, controls: Vec<ControlInfo>) -> ParagraphInfo {
    ParagraphInfo { text: text.to_string(), controls }
}

fn table(rows: u16, cols: u16, cells: Vec<CellInfo>) -> ControlInfo {
    ControlInfo::Table(TableInfo { row_count: rows, col_count: cols, cells })
}

fn cell(row: u16, col: u16, row_span: u16, col_span: u16, paras: &[&str]) -> CellInfo {
    CellInfo { row, col, row_span, col_span, paragraphs: paras.iter().map(|s| s.to_string()).collect() }
}

fn form(ft: FormType, name: &str, value: i32) -> ControlInfo {
    ControlInfo::Form(FormInfo {
        form_type: ft,
        name: name.to_string(),
        value,
        caption: format!("{name}-caption"),
        text: format!("{name}-text"),
    })
}

fn sample() -> Vec<SectionInfo> {
    vec![
        SectionInfo {
            paragraphs: vec![
                para("제목", vec![]),
                para(&"가".repeat(81), vec![ControlInfo::Other, table(2, 3, vec![cell(0, 0, 1, 1, &["a", "b"]), cell(0, 1, 2, 1, &[])])]),
                para("양식", vec![form(FormType::Edit, "e", 0), ControlInfo::Other, form(FormType::CheckBox, "c", 1)]),
            ],
        },
        SectionInfo { paragraphs: vec![] },
        SectionInfo { paragraphs: vec![para("끝", vec![form(FormType::PushButton, "p", 0)])] },
    ]
}

fn text_params(section: usize, start: Option<usize>, end: Option<usize>) -> GetTextParams {
    GetTextParams { doc_id: "doc-1".to_string(), section, para_start: start, para_end: end }
}

#[test]
fn structure_overview() {
    let s = structure(&sample());
    assert_eq!(s.len(), 3);
    assert_eq!(s[1].section, 1);
    assert!(s[1].paragraphs.is_empty());
    let p0 = &s[0].paragraphs[0];
    assert_eq!((p0.para, p0.preview.as_str(), p0.chars), (0, "제목", 2));
    assert_eq!(p0.preview_truncated, None);
    assert!(p0.tables.is_none());
    assert_eq!(p0.controls_total, None);
    let p1 = &s[0].paragraphs[1];
    assert_eq!(p1.chars, 81);
    assert_eq!(p1.preview, "가".repeat(80));
    assert_eq!(p1.preview_truncated, Some(true));
    assert_eq!(p1.tables, Some(vec![TableRef { control: 1, rows: 2, cols: 3 }]));
    assert_eq!(p1.controls_total, Some(2));
    let p2 = &s[0].paragraphs[2];
    assert!(p2.tables.is_none());
    assert_eq!(p2.controls_total, Some(3));
}

#[test]
fn text_of_whole_section_by_default() {
    let r = text_report(&sample(), &text_params(0, None, None)).unwrap();
    assert_eq!(r.section, 0);
    let got: Vec<(usize, String)> = r.paragraphs.iter().map(|p| (p.para, p.text.clone())).collect();
    assert_eq!(got[0], (0, "제목".to_string()));
    assert_eq!(got[2], (2, "양식".to_string()));
    assert_eq!(got.len(), 3);
}

#[test]
fn text_range_is_clamped_to_section_end() {
    let r = text_report(&sample(), &text_params(0, Some(1), Some(99))).unwrap();
    let paras: Vec<usize> = r.paragraphs.iter().map(|p| p.para).collect();
    assert_eq!(paras, vec![1, 2]);
    let r = text_report(&sample(), &text_params(0, Some(2), Some(2))).unwrap();
    assert_eq!(r.paragraphs.len(), 1);
    assert_eq!(r.paragraphs[0].text, "양식");
}

#[test]
fn text_range_errors() {
    match text_report(&sample(), &text_params(3, None, None)) {
        Err(ToolError::SectionOutOfRange { section: 3, total: 3 }) => {}
        other => panic!("{other:?}"),
    }
    match text_report(&sample(), &text_params(0, Some(3), None)) {
        Err(ToolError::ParaRangeInvalid { start: 3, end: 2, total: 3 }) => {}
        other => panic!("{other:?}"),
    }
    match text_report(&sample(), &text_params(0, Some(2), Some(1))) {
        Err(ToolError::ParaRangeInvalid { start: 2, end: 1, total: 3 }) => {}
        other => panic!("{other:?}"),
    }
    match text_report(&sample(), &text_params(1, None, None)) {
        Err(e @ ToolError::ParaRangeInvalid { start: 0, end: 0, total: 0 }) => {
            assert_eq!(e.message(), "문단 범위 0..=0 잘못됨 (총 0개)");
        }
        other => panic!("{other:?}"),
    }
}

fn table_params(section: usize, para: usize, control: usize) -> GetTableParams {
    GetTableParams { doc_id: "doc-1".to_string(), section, para, control }
}

#[test]
fn table_cells() {
    let t = table_report(&sample(), &table_params(0, 1, 1)).unwrap();
    assert_eq!((t.rows, t.cols), (2, 3));
    assert_eq!(t.cells.len(), 2);
    assert_eq!(t.cells[0].cell_idx, 0);
    assert_eq!(t.cells[0].text, "a\nb");
    assert_eq!(t.cells[0].cell_paragraphs, 2);
    assert_eq!(t.cells[0].span, None);
    assert_eq!(t.cells[1].cell_idx, 1);
    assert_eq!((t.cells[1].row, t.cells[1].col), (0, 1));
    assert_eq!(t.cells[1].text, "");
    assert_eq!(t.cells[1].span, Some((2, 1)));
}

#[test]
fn table_lookup_errors() {
    assert!(matches!(table_report(&sample(), &table_params(0, 1, 0)), Err(ToolError::NotATable { control: 0 })));
    assert!(matches!(
        table_report(&sample(), &table_params(0, 1, 2)),
        Err(ToolError::ControlOutOfRange { control: 2, total: 2 })
    ));
    assert!(matches!(table_report(&sample(), &table_params(0, 5, 0)), Err(ToolError::ParaNotFound { section: 0, para: 5 })));
    assert!(matches!(table_report(&sample(), &table_params(7, 0, 0)), Err(ToolError::ParaNotFound { section: 7, para: 0 })));
}

#[test]
fn forms_in_document_order() {
    let forms = list_forms(&sample());
    let got: Vec<(usize, usize, usize, &str, &str, i32)> = forms
        .iter()
        .map(|f| (f.section, f.para, f.control, form_type_str(f.form_type), f.name.as_str(), f.value))
        .collect();
    assert_eq!(
        got,
        vec![(0, 2, 0, "Edit", "e", 0), (0, 2, 2, "CheckBox", "c", 1), (2, 0, 0, "PushButton", "p", 0)]
    );
    assert_eq!(forms[1].caption, "c-caption");
    assert_eq!(forms[1].text, "c-text");
}

#[test]
fn form_type_names() {
    assert_eq!(form_type_str(FormType::PushButton), "PushButton");
    assert_eq!(form_type_str(FormType::CheckBox), "CheckBox");
    assert_eq!(form_type_str(FormType::RadioButton), "RadioButton");
    assert_eq!(form_type_str(FormType::ComboBox), "ComboBox");
    assert_eq!(form_type_str(FormType::Edit), "Edit");
}

fn form_params(value: Option<i32>, text: Option<&str>, caption: Option<&str>) -> SetFormValueParams {
    SetFormValueParams {
        doc_id: "doc-1".to_string(),
        section: 0,
        para: 2,
        control: 0,
        value,
        text: text.map(|s| s.to_string()),
        caption: caption.map(|s| s.to_string()),
    }
}

#[test]
fn form_value_needs_one_part() {
    let err = form_value_request(&form_params(None, None, None)).unwrap_err();
    assert!(err.message().contains("최소 하나"), "에러 메시지: {err:?}");
}

#[test]
fn form_value_request_json() {
    assert_eq!(form_value_request(&form_params(None, Some("MCP에디트값"), None)).unwrap(), "{\"text\":\"MCP에디트값\"}");
    assert_eq!(form_value_request(&form_params(Some(0), None, None)).unwrap(), "{\"value\":0}");
    assert_eq!(
        form_value_request(&form_params(Some(-12), Some("a\"b\\c\n"), Some("캡션"))).unwrap(),
        "{\"caption\":\"캡션\",\"text\":\"a\\\"b\\\\c\\n\",\"value\":-12}"
    );
    let v: serde_json::Value =
        serde_json::from_str(&form_value_request(&form_params(Some(1), Some("x\u{1}"), None)).unwrap()).unwrap();
    assert_eq!(v["text"], "x\u{1}");
    assert_eq!(v["value"], 1);
}

#[test]
fn form_result_must_report_ok() {
    let p = form_params(Some(1), None, None);
    assert_eq!(check_form_result("{\"ok\":true}".to_string(), &p).unwrap(), "{\"ok\":true}");
    match check_form_result("{\"ok\":false}".to_string(), &p) {
        Err(e @ ToolError::NoFormAt { section: 0, para: 2, control: 0 }) => {
            assert_eq!(e.message(), "(0, 2, 0) 위치에 양식 개체 없음");
        }
        other => panic!("{other:?}"),
    }
}

#[test]
fn cell_text_plan() {
    let mut p = SetCellTextParams {
        doc_id: "doc-1".to_string(),
        section: 0,
        para: 1,
        control: 1,
        cell: 0,
        cell_para: None,
        text: "MCP셀편집".to_string(),
    };
    let plan = p.plan(4);
    assert_eq!((plan.cell_para, plan.delete_count), (0, Some(4)));
    p.cell_para = Some(2);
    let plan = p.plan(0);
    assert_eq!((plan.cell_para, plan.delete_count), (2, None));
}

#[test]
fn paragraph_counts_per_section() {
    assert_eq!(paragraph_counts(&sample()), vec![3, 0, 1]);
    assert_eq!(paragraph_counts(&vec![]), Vec::<usize>::new());
}

#[test]
fn form_value_request_keeps_each_part_under_its_key() {
    let json = form_value_request(&form_params(Some(7), Some("T"), Some("C"))).unwrap();
    let v: serde_json::Value = serde_json::from_str(&json).unwrap();
    assert_eq!(v["value"], 7);
    assert_eq!(v["text"], "T");
    assert_eq!(v["caption"], "C");
    assert_eq!(v.as_object().unwrap().len(), 3);
    let json = form_value_request(&form_params(None, None, Some("only"))).unwrap();
    assert_eq!(json, "{\"caption\":\"only\"}");
}
