use hangul_mcp::error::{ErrorKind, ToolError};
use hangul_mcp::params::{ReplaceTextParams, SetCellTextParams, SetFormValueParams};
use hangul_mcp::store::DocumentStore;

fn unknown_handle(e: &ToolError) -> Option<String> {
    match e {
        ToolError::UnknownDoc { doc_id } => Some(doc_id.clone()),
        _ => None,
    }
}

#[test]
fn unknown_doc_id_is_invalid_params() {
    let store: DocumentStore<u32> = DocumentStore::new();
    let err = store
        .with_session("doc-999", |s| Ok(s.core))
        .expect_err("없는 doc_id는 에러여야 함");
    assert_eq!(err.kind(), ErrorKind::InvalidParams);
    assert!(err.message().contains("doc-999"), "에러 메시지: {}", err.message());
}

#[test]
fn handles_are_issued_in_sequence_and_found_again() {
    let mut store: DocumentStore<&str> = DocumentStore::new();
    let a = store.insert("first", "/tmp/a.hwpx".to_string());
    let b = store.insert("second", "/tmp/b.hwpx".to_string());
    assert_eq!(a, "doc-1");
    assert_eq!(b, "doc-2");
    assert_eq!(store.with_session(&a, |s| Ok(s.core)).unwrap(), "first");
    assert_eq!(store.with_session(&b, |s| Ok(s.path.clone())).unwrap(), "/tmp/b.hwpx");
    assert!(!store.with_session(&b, |s| Ok(s.dirty)).unwrap());
    assert_eq!(store.last_issued(), 2);
}

#[test]
fn handle_lookup_is_exact() {
    let mut store: DocumentStore<u8> = DocumentStore::new();
    store.insert(7, "p".to_string());
    for bad in ["doc-01", "doc-1 ", "Doc-1", "doc1", "", "doc-", "doc-2"] {
        let err = store.with_session(bad, |s| Ok(s.core)).unwrap_err();
        assert_eq!(unknown_handle(&err).as_deref(), Some(bad));
    }
    assert_eq!(store.with_session("doc-1", |s| Ok(s.core)).unwrap(), 7);
}

#[test]
fn closed_handle_is_unknown_and_never_reused() {
    let mut store: DocumentStore<u8> = DocumentStore::new();
    let a = store.insert(1, "a".to_string());
    let (path, dirty) = store.remove(&a).unwrap();
    assert_eq!(path, "a");
    assert!(!dirty);
    assert!(store.with_session(&a, |s| Ok(s.core)).is_err());
    assert!(store.remove(&a).is_err());
    let b = store.insert(2, "b".to_string());
    assert_eq!(b, "doc-2");
    assert!(store.with_session(&a, |s| Ok(s.core)).is_err());
}

#[test]
fn edit_marks_unsaved_only_on_success() {
    let mut store: DocumentStore<Vec<u32>> = DocumentStore::new();
    let a = store.insert(Vec::new(), "a".to_string());
    let failed: Result<(), ToolError> = store.with_session_edit(&a, |s| {
        s.core.push(1);
        Err(ToolError::Engine { detail: "boom".to_string() })
    });
    assert_eq!(failed.unwrap_err().message(), "boom");
    assert!(!store.with_session(&a, |s| Ok(s.dirty)).unwrap());
    assert_eq!(store.with_session(&a, |s| Ok(s.core.clone())).unwrap(), vec![1]);
    let ok = store.with_session_edit(&a, |s| {
        s.core.push(2);
        Ok(s.core.len())
    });
    assert_eq!(ok.unwrap(), 2);
    assert!(store.with_session(&a, |s| Ok(s.dirty)).unwrap());
}

#[test]
fn session_mut_leaves_flag_alone() {
    let mut store: DocumentStore<u32> = DocumentStore::new();
    let a = store.insert(5, "a".to_string());
    let r = store.with_session_mut(&a, |s| {
        s.core += 1;
        Ok(s.core)
    });
    assert_eq!(r.unwrap(), 6);
    assert!(!store.with_session(&a, |s| Ok(s.dirty)).unwrap());
}

#[test]
fn save_then_close_reports_no_unsaved_edits() {
    let mut store: DocumentStore<String> = DocumentStore::new();
    let a = store.insert("body".to_string(), "/docs/in.hwpx".to_string());
    store.with_session_edit(&a, |s| {
        s.core.push_str("!");
        Ok(())
    })
    .unwrap();
    let (target, bytes) = store
        .save(&a, None, |core, target| {
            assert_eq!(target, "/docs/in.hwpx");
            Ok(core.len())
        })
        .unwrap();
    assert_eq!(target, "/docs/in.hwpx");
    assert_eq!(bytes, 5);
    let (_, dirty) = store.remove(&a).unwrap();
    assert!(!dirty);
}

#[test]
fn edit_then_close_reports_unsaved_edits() {
    let mut store: DocumentStore<u8> = DocumentStore::new();
    let a = store.insert(0, "x".to_string());
    store.with_session_edit(&a, |s| Ok(s.core)).unwrap();
    let (path, dirty) = store.remove(&a).unwrap();
    assert_eq!(path, "x");
    assert!(dirty);
}

#[test]
fn save_to_output_path_and_failed_save_keep_flag() {
    let mut store: DocumentStore<u8> = DocumentStore::new();
    let a = store.insert(0, "orig.hwpx".to_string());
    store.with_session_edit(&a, |_| Ok(())).unwrap();
    let err = store
        .save(&a, Some("out.hwpx".to_string()), |_, target| {
            Err(ToolError::FileWrite { path: target.clone(), detail: "denied".to_string() })
        })
        .unwrap_err();
    assert_eq!(err.message(), "파일 쓰기 실패 out.hwpx: denied");
    assert_eq!(err.kind(), ErrorKind::Internal);
    assert!(store.with_session(&a, |s| Ok(s.dirty)).unwrap());
    let (target, _) = store.save(&a, Some("out.hwpx".to_string()), |_, _| Ok(3)).unwrap();
    assert_eq!(target, "out.hwpx");
    assert!(!store.with_session(&a, |s| Ok(s.dirty)).unwrap());
    assert_eq!(store.with_session(&a, |s| Ok(s.path.clone())).unwrap(), "orig.hwpx");
}

#[test]
fn unknown_handle_runs_nothing() {
    let mut store: DocumentStore<u8> = DocumentStore::new();
    store.insert(0, "x".to_string());
    let mut ran = false;
    let r: Result<(), ToolError> = store.with_session_edit("doc-9", |_| {
        ran = true;
        Ok(())
    });
    assert!(r.is_err());
    assert!(!ran);
    assert!(store.save("doc-9", None, |_, _| Ok(0)).is_err());
    assert_eq!(store.list().len(), 1);
}

#[test]
fn list_names_each_open_document_once() {
    let mut store: DocumentStore<u8> = DocumentStore::new();
    let a = store.insert(0, "a".to_string());
    let b = store.insert(0, "b".to_string());
    let c = store.insert(0, "c".to_string());
    store.with_session_edit(&b, |_| Ok(())).unwrap();
    store.remove(&a).unwrap();
    let mut listed = store.list();
    listed.sort();
    assert_eq!(
        listed,
        vec![(b.clone(), "b".to_string(), true), (c.clone(), "c".to_string(), false)]
    );
}

#[test]
fn core_edit_sets_flag_only_on_success() {
    let mut store: DocumentStore<Vec<u8>> = DocumentStore::new();
    let a = store.insert(Vec::new(), "a".to_string());
    let r: Result<(), ToolError> = store.with_core_edit(&a, |core| {
        core.push(1);
        Err(ToolError::Engine { detail: "no".to_string() })
    });
    assert!(r.is_err());
    assert!(!store.with_session(&a, |s| Ok(s.dirty)).unwrap());
    assert_eq!(store.with_core_edit(&a, |core| Ok(core.len())).unwrap(), 1);
    assert!(store.with_session(&a, |s| Ok(s.dirty)).unwrap());
    assert_eq!(store.with_session(&a, |s| Ok(s.path.clone())).unwrap(), "a");
}

fn form_params(value: Option<i32>, text: Option<&str>) -> SetFormValueParams {
    SetFormValueParams {
        doc_id: "doc-1".to_string(),
        section: 0,
        para: 1,
        control: 2,
        value,
        text: text.map(|s| s.to_string()),
        caption: None,
    }
}

#[test]
fn form_value_through_store() {
    let mut store: DocumentStore<Vec<String>> = DocumentStore::new();
    let a = store.insert(Vec::new(), "f.hwpx".to_string());
    // Nothing named: refused before the engine runs.
    let err = store
        .set_form_value(&a, &form_params(None, None), |_, _| panic!("engine must not run"))
        .unwrap_err();
    assert!(matches!(err, ToolError::FormValueMissing));
    // No form at the position: the engine answers without "ok":true, the flag stays clean.
    let err = store
        .set_form_value(&a, &form_params(Some(0), None), |core, req| {
            core.push(req.clone());
            Ok("{\"ok\":false}".to_string())
        })
        .unwrap_err();
    assert_eq!(err.message(), "(0, 1, 2) 위치에 양식 개체 없음");
    assert!(!store.with_session(&a, |s| Ok(s.dirty)).unwrap());
    // Success: the request is the JSON object, the answer comes back, the flag is set.
    let ok = store
        .set_form_value(&a, &form_params(None, Some("MCP에디트값")), |core, req| {
            core.push(req.clone());
            Ok("{\"ok\":true}".to_string())
        })
        .unwrap();
    assert_eq!(ok, "{\"ok\":true}");
    assert!(store.with_session(&a, |s| Ok(s.dirty)).unwrap());
    let reqs = store.with_session(&a, |s| Ok(s.core.clone())).unwrap();
    assert_eq!(reqs, vec!["{\"value\":0}".to_string(), "{\"text\":\"MCP에디트값\"}".to_string()]);
}

fn cell_params(cell_para: Option<usize>) -> SetCellTextParams {
    SetCellTextParams {
        doc_id: "doc-1".to_string(),
        section: 0,
        para: 0,
        control: 0,
        cell: 0,
        cell_para,
        text: "new".to_string(),
    }
}

#[test]
fn cell_text_replaced() {
    let mut store: DocumentStore<String> = DocumentStore::new();
    let a = store.insert("old".to_string(), "t.hwpx".to_string());
    let r = store.set_cell_text(
        &a,
        &cell_params(None),
        |core, cp| {
            assert_eq!(cp, 0);
            Ok(core.chars().count())
        },
        |core, _, count| {
            assert_eq!(count, 3);
            core.clear();
            Ok("deleted".to_string())
        },
        |core, _| {
            core.push_str("new");
            Ok("inserted".to_string())
        },
    );
    assert_eq!(r.unwrap(), "inserted");
    assert_eq!(store.with_session(&a, |s| Ok(s.core.clone())).unwrap(), "new");
    assert!(store.with_session(&a, |s| Ok(s.dirty)).unwrap());
}

#[test]
fn cell_edit_failing_after_delete_is_unsaved() {
    let mut store: DocumentStore<String> = DocumentStore::new();
    let a = store.insert("old".to_string(), "t.hwpx".to_string());
    let r = store.set_cell_text(
        &a,
        &cell_params(Some(1)),
        |core, _| Ok(core.len()),
        |core, cp, _| {
            assert_eq!(cp, 1);
            core.clear();
            Ok(String::new())
        },
        |_, _| Err(ToolError::Engine { detail: "insert failed".to_string() }),
    );
    assert_eq!(r.unwrap_err().message(), "insert failed");
    assert_eq!(store.with_session(&a, |s| Ok(s.core.clone())).unwrap(), "");
    let (_, dirty) = store.remove(&a).unwrap();
    assert!(dirty);
}

#[test]
fn cell_edit_failing_before_change_stays_clean() {
    let mut store: DocumentStore<String> = DocumentStore::new();
    let a = store.insert("".to_string(), "t.hwpx".to_string());
    let r = store.set_cell_text(
        &a,
        &cell_params(None),
        |core, _| Ok(core.len()),
        |_, _, _| panic!("nothing to delete in an empty paragraph"),
        |_, _| Err(ToolError::Engine { detail: "insert failed".to_string() }),
    );
    assert!(r.is_err());
    assert!(!store.with_session(&a, |s| Ok(s.dirty)).unwrap());
    let r = store.set_cell_text(
        &a,
        &cell_params(None),
        |_, _| Err(ToolError::Engine { detail: "no cell".to_string() }),
        |_, _, _| panic!("not reached"),
        |_, _| panic!("not reached"),
    );
    assert_eq!(r.unwrap_err().message(), "no cell");
    assert!(!store.with_session(&a, |s| Ok(s.dirty)).unwrap());
}

fn replace_params(all: Option<bool>, case_sensitive: Option<bool>) -> ReplaceTextParams {
    ReplaceTextParams {
        doc_id: "doc-1".to_string(),
        query: "마커원본".to_string(),
        replacement: "마커치환".to_string(),
        all,
        case_sensitive,
    }
}

#[test]
fn replace_text_picks_scope_and_case() {
    let mut store: DocumentStore<Vec<String>> = DocumentStore::new();
    let a = store.insert(Vec::new(), "r.hwpx".to_string());
    let r = store.replace_text(
        &a,
        &replace_params(None, None),
        |core, cs| {
            core.push(format!("all:{cs}"));
            Ok("{\"count\":1}".to_string())
        },
        |_, _| panic!("first-only not asked for"),
    );
    assert_eq!(r.unwrap(), "{\"count\":1}");
    assert!(store.with_session(&a, |s| Ok(s.dirty)).unwrap());
    let r = store.replace_text(
        &a,
        &replace_params(Some(false), Some(true)),
        |_, _| panic!("all not asked for"),
        |core, cs| {
            core.push(format!("one:{cs}"));
            Err(ToolError::Engine { detail: "none".to_string() })
        },
    );
    assert!(r.is_err());
    assert_eq!(store.with_session(&a, |s| Ok(s.core.clone())).unwrap(), vec!["all:false", "one:true"]);
    let (_, dirty) = store.remove(&a).unwrap();
    assert!(dirty);
    assert!(store
        .replace_text(&a, &replace_params(None, None), |_, _| panic!(), |_, _| panic!())
        .is_err());
}
