//! Properties of the library that span several operations.

use vstd::prelude::*;
use crate::doc_id::{id_number, id_text, lemma_id_number_of_text, lemma_id_text_injective};
use crate::error::{message_text, ToolError};
use crate::store::{DocumentSession, DocumentStore};
use crate::model::{CellInfo, ControlInfo, ParagraphInfo, SectionInfo};
use crate::params::{flag_or, GetTextParams};
use crate::report::{
    document_forms, is_cell_report, is_overview, paragraph_forms, section_forms, selected_range, table_refs,
    CellReport, FormEntry, ParagraphOverview,
};
use crate::forms::{form_members, JsonScalarView};
use crate::params::SetFormValueParams;
use crate::text::{join_lines, occurs_in, prefix_of, PREVIEW_CHARS};

verus! {

/// The handle of a session number names that number and no other: formatting a handle and
/// reading it back gives the number it was made from.
pub proof fn law_handle_round_trip(n: u64, m: u64)
    ensures
        id_number(id_text(n as nat)) == Some(n),
        id_text(n as nat) == id_text(m as nat) <==> n == m,
{
    lemma_id_number_of_text(n);
    lemma_id_text_injective(n as nat, m as nat);
}

/// A newly opened document is found under the handle that opening returned, clean, and that
/// handle named no open document before. (`after` is the store as `insert` leaves it.)
pub proof fn law_open_then_find<C>(
    before: DocumentStore<C>,
    after: DocumentStore<C>,
    core: C,
    path: String,
)
    requires
        before.wf(),
        after.issued() == before.issued() + 1,
        after@ == before@.insert(after.issued(), DocumentSession { core, path, dirty: false }),
    ensures
        before.target(id_text(after.issued() as nat)) is None,
        after.target(id_text(after.issued() as nat)) == Some(after.issued()),
        after@[after.issued()] == (DocumentSession { core, path, dirty: false }),
{
    before.lemma_numbers_issued();
    lemma_id_number_of_text(after.issued());
    if before@.contains_key(after.issued()) {
        assert(after.issued() <= before.issued());
    }
}

/// Once a document is closed its handle names no open document, and no later opening can
/// hand that handle out again, since later sessions get numbers above the last one issued.
/// (`after` is the store as `remove` leaves it.)
pub proof fn law_closed_handle_stays_unknown<C>(
    before: DocumentStore<C>,
    after: DocumentStore<C>,
    doc_id: Seq<char>,
    r: Result<(String, bool), ToolError>,
)
    requires
        before.wf(),
        before.target(doc_id) is Some,
        before.closes(after, doc_id, r),
        after.issued() == before.issued(),
    ensures
        r is Ok,
        after.target(doc_id) is None,
        forall|m: u64| m > after.issued() ==> id_text(m as nat) != doc_id,
{
    before.lemma_numbers_issued();
    let n = before.target(doc_id).unwrap();
    lemma_id_number_of_text(n);
    assert(id_text(n as nat) == doc_id);
    assert forall|m: u64| m > after.issued() implies id_text(m as nat) != doc_id by {
        lemma_id_text_injective(m as nat, n as nat);
    }
}

/// Closing a document right after an operation that set its unsaved-edits flag reports that
/// flag: clean right after a successful save (`save` sets it to false), unsaved right after a
/// successful edit (`with_core_edit` and `set_form_value` set it to true). (`middle` is the store after that operation, `after` the store after `remove`.)
pub proof fn law_close_reports_last_flag<C>(
    before: DocumentStore<C>,
    middle: DocumentStore<C>,
    after: DocumentStore<C>,
    doc_id: Seq<char>,
    value: bool,
    r: Result<(String, bool), ToolError>,
)
    requires
        before.target(doc_id) is Some,
        before.sets_flag(middle, doc_id, true, value),
        middle.closes(after, doc_id, r),
    ensures
        r matches Ok((_, dirty)) && dirty == value,
{
    let n = before.target(doc_id).unwrap();
    assert(middle@.dom().contains(n));
}

/// Listing the open documents names each of them exactly once, under its handle, and names
/// nothing else. (`listed` is what `list` returned, and `ids` the session numbers its contract
/// speaks of.)
pub proof fn law_list_names_each_open_document_once<C>(
    store: DocumentStore<C>,
    listed: Seq<(String, String, bool)>,
    ids: Seq<u64>,
)
    requires
        store.lists(listed, ids),
    ensures
        forall|n: u64| #[trigger] store@.contains_key(n) ==> exists|i: int|
            0 <= i < listed.len() && listed[i].0@ == id_text(n as nat),
        forall|i: int, j: int| 0 <= i < listed.len() && 0 <= j < listed.len() && i != j
            ==> listed[i].0@ != listed[j].0@,
        forall|i: int| 0 <= i < listed.len() ==> store.target((#[trigger] listed[i]).0@) is Some,
{
    assert forall|n: u64| #[trigger] store@.contains_key(n) implies exists|i: int|
        0 <= i < listed.len() && listed[i].0@ == id_text(n as nat) by {
        assert(ids.contains(n));
        let i = choose|i: int| 0 <= i < ids.len() && ids[i] == n;
        assert(listed[i].0@ == id_text(n as nat));
    }
    assert forall|i: int, j: int| 0 <= i < listed.len() && 0 <= j < listed.len() && i != j
        implies listed[i].0@ != listed[j].0@ by {
        assert(listed[i].0@ == id_text(ids[i] as nat));
        assert(listed[j].0@ == id_text(ids[j] as nat));
        lemma_id_text_injective(ids[i] as nat, ids[j] as nat);
    }
    assert forall|i: int| 0 <= i < listed.len() implies store.target((#[trigger] listed[i]).0@) is Some by {
        let n = ids[i];
        assert(ids.contains(n));
        lemma_id_number_of_text(n);
    }
}

/// Whether step `i` of a history of stores opened a document (raised the last number issued).
pub open spec fn opened_at<C>(hist: Seq<DocumentStore<C>>, i: int) -> bool {
    hist[i + 1].issued() == hist[i].issued() + 1
}

/// How many of the first `i` steps of a history opened a document.
pub open spec fn openings<C>(hist: Seq<DocumentStore<C>>, i: int) -> nat
    decreases i,
{
    if i <= 0 {
        0
    } else {
        openings(hist, i - 1) + if opened_at(hist, i - 1) { 1nat } else { 0nat }
    }
}

proof fn lemma_issued_counts<C>(hist: Seq<DocumentStore<C>>, i: int)
    requires
        0 <= i < hist.len(),
        hist[0].issued() == 0,
        forall|k: int| 0 <= k < hist.len() - 1 ==> (#[trigger] hist[k + 1]).issued() == hist[k].issued()
            || hist[k + 1].issued() == hist[k].issued() + 1,
    ensures
        hist[i].issued() == openings(hist, i),
    decreases i,
{
    if i > 0 {
        lemma_issued_counts(hist, i - 1);
        assert(hist[(i - 1) + 1].issued() == hist[i - 1].issued() || hist[(i - 1) + 1].issued()
            == hist[i - 1].issued() + 1);
    }
}

proof fn lemma_issued_grows<C>(hist: Seq<DocumentStore<C>>, a: int, b: int)
    requires
        0 <= a <= b < hist.len(),
        forall|k: int| 0 <= k < hist.len() - 1 ==> (#[trigger] hist[k + 1]).issued() == hist[k].issued()
            || hist[k + 1].issued() == hist[k].issued() + 1,
    ensures
        hist[a].issued() <= hist[b].issued(),
    decreases b - a,
{
    if a < b {
        lemma_issued_grows(hist, a, b - 1);
        assert(hist[(b - 1) + 1].issued() == hist[b - 1].issued() || hist[(b - 1) + 1].issued()
            == hist[b - 1].issued() + 1);
    }
}

/// Over any history of calls, starting from a new store, every opening hands out a fresh
/// handle: the `k`-th opening gets `doc-k`, no two openings get the same handle, and no opening
/// gets the handle of a document open at the time, nor of one opened and closed before.
///
/// A history is a sequence of stores in which each step is one call: `insert` raises the last
/// number issued by one, and every other operation leaves it as it was.
pub proof fn law_handles_are_fresh<C>(hist: Seq<DocumentStore<C>>)
    requires
        hist.len() >= 1,
        hist[0].issued() == 0,
        forall|k: int| 0 <= k < hist.len() ==> (#[trigger] hist[k]).wf(),
        forall|k: int| 0 <= k < hist.len() - 1 ==> (#[trigger] hist[k + 1]).issued() == hist[k].issued()
            || hist[k + 1].issued() == hist[k].issued() + 1,
    ensures
        forall|i: int| 0 <= i < hist.len() - 1 && #[trigger] opened_at(hist, i)
            ==> hist[i + 1].issued() == openings(hist, i) + 1,
        forall|i: int, j: int| 0 <= i < j < hist.len() - 1 && #[trigger] opened_at(hist, i) && #[trigger] opened_at(hist, j)
            ==> id_text(hist[i + 1].issued() as nat) != id_text(hist[j + 1].issued() as nat),
        forall|i: int| 0 <= i < hist.len() - 1 && #[trigger] opened_at(hist, i)
            ==> !hist[i]@.contains_key(hist[i + 1].issued()),
{
    assert forall|i: int| 0 <= i < hist.len() - 1 && #[trigger] opened_at(hist, i)
        implies hist[i + 1].issued() == openings(hist, i) + 1 by {
        lemma_issued_counts(hist, i);
    }
    assert forall|i: int, j: int| 0 <= i < j < hist.len() - 1 && #[trigger] opened_at(hist, i) && #[trigger] opened_at(hist, j)
        implies id_text(hist[i + 1].issued() as nat) != id_text(hist[j + 1].issued() as nat) by {
        lemma_issued_grows(hist, i + 1, j);
        lemma_id_text_injective(hist[i + 1].issued() as nat, hist[j + 1].issued() as nat);
    }
    assert forall|i: int| 0 <= i < hist.len() - 1 && #[trigger] opened_at(hist, i)
        implies !hist[i]@.contains_key(hist[i + 1].issued()) by {
        let s = hist[i];
        assert(s.wf());
        s.lemma_numbers_issued();
    }
}

/// A paragraph preview is a prefix of the text, at most the preview length long, and shorter
/// than the text exactly when the text is longer than the preview length.
pub proof fn law_preview_is_prefix(t: Seq<char>)
    ensures
        prefix_of(t, PREVIEW_CHARS as nat).len() <= PREVIEW_CHARS,
        prefix_of(t, PREVIEW_CHARS as nat) == t.take(prefix_of(t, PREVIEW_CHARS as nat).len() as int),
        prefix_of(t, PREVIEW_CHARS as nat).len() < t.len() <==> t.len() > PREVIEW_CHARS,
{
    if t.len() <= PREVIEW_CHARS {
        assert(t.take(t.len() as int) =~= t);
    }
}

/// The message of an unknown-handle error quotes the handle.
pub proof fn law_unknown_doc_message_names_handle(doc_id: String)
    ensures
        exists|i: int|
            0 <= i <= message_text(ToolError::UnknownDoc { doc_id }).len() - doc_id@.len()
                && #[trigger] message_text(ToolError::UnknownDoc { doc_id }).subrange(i, i + doc_id@.len())
                == doc_id@,
{
    let prefix = "알 수 없는 doc_id: "@;
    let m = message_text(ToolError::UnknownDoc { doc_id });
    let i = prefix.len() as int;
    assert(m.subrange(i, i + doc_id@.len()) =~= doc_id@);
}

/// A flag that is given is used as given, whatever the default; only an absent flag takes
/// the default.
pub proof fn law_given_flag_is_used(b: bool, default: bool)
    ensures
        flag_or(Some(b), default) == b,
        flag_or(None, default) == default,
{
}

/// A cell report describes its cell: the flat index it was asked for, the cell's row and
/// column, the number of its paragraphs, and a span exactly when the cell spans more than one
/// row or more than one column, the span being then the cell's row and column spans.
pub proof fn law_cell_report_describes_cell(c: CellReport, k: int, cell: CellInfo)
    requires
        is_cell_report(c, k, cell),
    ensures
        c.cell_idx == k,
        c.row == cell.row,
        c.col == cell.col,
        c.cell_paragraphs == cell.paragraphs@.len(),
        c.span is Some <==> (cell.row_span > 1 || cell.col_span > 1),
        c.span matches Some((rs, cs)) ==> rs == cell.row_span && cs == cell.col_span,
        cell.row_span == 1 && cell.col_span == 1 ==> c.span is None,
{
}

/// The table references of a paragraph's controls name every table control once, in control
/// order, each with the rows and columns of that table, and name no other control.
pub proof fn law_table_refs_are_the_tables(controls: Vec<ControlInfo>)
    ensures
        forall|j: int| 0 <= j < table_refs(controls@).len() ==> {
            let r = #[trigger] table_refs(controls@)[j];
            &&& r.control < controls@.len()
            &&& controls@[r.control as int] matches ControlInfo::Table(t) && r.rows == t.row_count && r.cols == t.col_count
        },
        forall|i: int| 0 <= i < controls@.len() && (#[trigger] controls@[i]) is Table ==> exists|j: int|
            0 <= j < table_refs(controls@).len() && table_refs(controls@)[j].control == i,
        forall|j: int, k: int| 0 <= j < k < table_refs(controls@).len() ==> table_refs(controls@)[j].control < table_refs(controls@)[k].control,
{
    assert(controls@.len() == controls.len());
    lemma_table_refs(controls@);
}

proof fn lemma_table_refs(cs: Seq<ControlInfo>)
    requires
        cs.len() <= usize::MAX,
    ensures
        forall|j: int| 0 <= j < table_refs(cs).len() ==> {
            let r = #[trigger] table_refs(cs)[j];
            &&& r.control < cs.len()
            &&& cs[r.control as int] matches ControlInfo::Table(t) && r.rows == t.row_count && r.cols == t.col_count
        },
        forall|i: int| 0 <= i < cs.len() && (#[trigger] cs[i]) is Table ==> exists|j: int|
            0 <= j < table_refs(cs).len() && table_refs(cs)[j].control == i,
        forall|j: int, k: int| 0 <= j < k < table_refs(cs).len() ==> table_refs(cs)[j].control < table_refs(cs)[k].control,
    decreases cs.len(),
{
    if cs.len() > 0 {
        let d = cs.drop_last();
        lemma_table_refs(d);
        let before = table_refs(d);
        let n = cs.len() - 1;
        assert forall|j: int| 0 <= j < before.len() implies before[j].control < n && cs[before[j].control as int] == d[before[j].control as int] by {
            let r = before[j];
            assert(r.control < d.len());
        }
        assert forall|i: int| 0 <= i < cs.len() && (#[trigger] cs[i]) is Table implies exists|j: int|
            0 <= j < table_refs(cs).len() && table_refs(cs)[j].control == i by {
            if i < n {
                assert(cs[i] == d[i]);
                let j = choose|j: int| 0 <= j < before.len() && before[j].control == i;
                assert(table_refs(cs)[j] == before[j]);
            } else {
                if let ControlInfo::Table(tab) = cs[n] {
                    assert(cs.last() == cs[n]);
                    assert(table_refs(cs) == before.push(
                        crate::report::TableRef { control: n as usize, rows: tab.row_count, cols: tab.col_count },
                    ));
                }
                assert(table_refs(cs)[before.len() as int].control == i);
            }
        }
    }
}

/// A paragraph overview describes its paragraph: its index, its character count, a preview
/// that is the text's first characters (all of them when there are at most the preview
/// length), a truncation mark exactly when the text is longer, its control count exactly when
/// it has controls, and its tables exactly when it has table controls.
pub proof fn law_overview_describes_paragraph(o: ParagraphOverview, i: int, p: ParagraphInfo)
    requires
        is_overview(o, i, p),
    ensures
        o.para == i,
        o.chars == p.text@.len(),
        o.preview@.len() == if p.text@.len() <= PREVIEW_CHARS { p.text@.len() } else { PREVIEW_CHARS as nat },
        forall|k: int| 0 <= k < o.preview@.len() ==> o.preview@[k] == p.text@[k],
        o.preview_truncated is Some <==> p.text@.len() > PREVIEW_CHARS,
        o.preview_truncated is Some ==> o.preview_truncated == Some(true),
        o.controls_total is Some <==> p.controls@.len() > 0,
        o.controls_total matches Some(n) ==> n == p.controls@.len(),
        o.tables is Some <==> exists|k: int| 0 <= k < p.controls@.len() && (#[trigger] p.controls@[k]) is Table,
{
    law_table_refs_are_the_tables(p.controls);
    let cs = p.controls@;
    assert(cs.len() == p.controls.len());
    if exists|k: int| 0 <= k < cs.len() && (#[trigger] cs[k]) is Table {
        let k = choose|k: int| 0 <= k < cs.len() && (#[trigger] cs[k]) is Table;
        assert(cs[k] is Table);
    }
    if table_refs(cs).len() > 0 {
        let r = table_refs(cs)[0];
        assert(cs[r.control as int] is Table);
    }
}

/// The paragraphs a text request selects from a section of `total` paragraphs: from the
/// given start (0 when absent) through the given end (the section's last paragraph when
/// absent), an end past the section stopping at its last paragraph; nothing when the start is
/// past the section or the given end is before the start.
pub proof fn law_text_range(p: GetTextParams, total: nat)
    ensures
        ({
            let start: nat = match p.para_start {
                Some(s) => s as nat,
                None => 0,
            };
            &&& start >= total ==> selected_range(p, total) is None
            &&& start < total && p.para_end is None ==> selected_range(p, total) == Some((start, (total - 1) as nat))
            &&& start < total && p.para_end is Some && p.para_end->0 < start ==> selected_range(p, total) is None
            &&& start < total && p.para_end is Some && start <= p.para_end->0 < total
                ==> selected_range(p, total) == Some((start, p.para_end->0 as nat))
            &&& start < total && p.para_end is Some && p.para_end->0 >= total
                ==> selected_range(p, total) == Some((start, (total - 1) as nat))
        }),
{
}

/// The entry `e` describes the control `c`: a form object of the same kind, name, value,
/// caption and text.
pub open spec fn describes_form(e: FormEntry, c: ControlInfo) -> bool {
    c matches ControlInfo::Form(f) && e.form_type == f.form_type && e.name == f.name && e.value
        == f.value && e.caption == f.caption && e.text == f.text
}

/// `a` comes before `b` in the document: by section, then paragraph, then control.
pub open spec fn comes_before(a: FormEntry, b: FormEntry) -> bool {
    ||| a.section < b.section
    ||| a.section == b.section && a.para < b.para
    ||| a.section == b.section && a.para == b.para && a.control < b.control
}

proof fn lemma_paragraph_forms(s: int, p: int, cs: Seq<ControlInfo>)
    requires
        0 <= s <= usize::MAX,
        0 <= p <= usize::MAX,
        cs.len() <= usize::MAX,
    ensures
        forall|j: int| 0 <= j < paragraph_forms(s, p, cs).len() ==> {
            let e = #[trigger] paragraph_forms(s, p, cs)[j];
            &&& e.section == s
            &&& e.para == p
            &&& e.control < cs.len()
            &&& describes_form(e, cs[e.control as int])
        },
        forall|c: int| 0 <= c < cs.len() && (#[trigger] cs[c]) is Form ==> exists|j: int|
            0 <= j < paragraph_forms(s, p, cs).len() && paragraph_forms(s, p, cs)[j].control == c,
        forall|j: int, k: int| 0 <= j < k < paragraph_forms(s, p, cs).len()
            ==> paragraph_forms(s, p, cs)[j].control < paragraph_forms(s, p, cs)[k].control,
    decreases cs.len(),
{
    if cs.len() > 0 {
        let d = cs.drop_last();
        lemma_paragraph_forms(s, p, d);
        let before = paragraph_forms(s, p, d);
        let n = cs.len() - 1;
        assert(cs.last() == cs[n]);
        assert forall|j: int| 0 <= j < before.len() implies before[j].control < n && cs[before[j].control as int]
            == d[before[j].control as int] by {
            let e = before[j];
            assert(e.control < d.len());
        }
        if let ControlInfo::Form(f) = cs[n] {
            assert(paragraph_forms(s, p, cs) == before.push(crate::report::form_entry(s, p, n, f)));
        } else {
            assert(paragraph_forms(s, p, cs) == before);
        }
        assert forall|c: int| 0 <= c < cs.len() && (#[trigger] cs[c]) is Form implies exists|j: int|
            0 <= j < paragraph_forms(s, p, cs).len() && paragraph_forms(s, p, cs)[j].control == c by {
            if c < n {
                assert(cs[c] == d[c]);
                let j = choose|j: int| 0 <= j < before.len() && before[j].control == c;
                assert(paragraph_forms(s, p, cs)[j] == before[j]);
            } else {
                assert(paragraph_forms(s, p, cs)[before.len() as int].control == c);
            }
        }
    }
}

proof fn lemma_section_forms(s: int, ps: Seq<ParagraphInfo>)
    requires
        0 <= s <= usize::MAX,
        ps.len() <= usize::MAX,
        forall|k: int| 0 <= k < ps.len() ==> (#[trigger] ps[k]).controls@.len() <= usize::MAX,
    ensures
        forall|j: int| 0 <= j < section_forms(s, ps).len() ==> {
            let e = #[trigger] section_forms(s, ps)[j];
            &&& e.section == s
            &&& e.para < ps.len()
            &&& e.control < ps[e.para as int].controls@.len()
            &&& describes_form(e, ps[e.para as int].controls@[e.control as int])
        },
        forall|p: int, c: int| 0 <= p < ps.len() && 0 <= c < ps[p].controls@.len() && (#[trigger] ps[p].controls@[c]) is Form
            ==> exists|j: int| 0 <= j < section_forms(s, ps).len() && section_forms(s, ps)[j].para == p
                && section_forms(s, ps)[j].control == c,
        forall|j: int, k: int| 0 <= j < k < section_forms(s, ps).len()
            ==> comes_before(section_forms(s, ps)[j], section_forms(s, ps)[k]),
    decreases ps.len(),
{
    if ps.len() > 0 {
        let d = ps.drop_last();
        let n = ps.len() - 1;
        assert forall|k: int| 0 <= k < d.len() implies (#[trigger] d[k]).controls@.len() <= usize::MAX by {
            assert(d[k] == ps[k]);
        }
        lemma_section_forms(s, d);
        assert(ps.last() == ps[n]);
        let cs = ps[n].controls@;
        lemma_paragraph_forms(s, n, cs);
        let a = section_forms(s, d);
        let b = paragraph_forms(s, n, cs);
        let all = section_forms(s, ps);
        assert(all == a + b);
        assert forall|j: int| 0 <= j < all.len() implies {
            let e = #[trigger] all[j];
            &&& e.section == s
            &&& e.para < ps.len()
            &&& e.control < ps[e.para as int].controls@.len()
            &&& describes_form(e, ps[e.para as int].controls@[e.control as int])
        } by {
            if j < a.len() {
                assert(all[j] == a[j]);
                assert(d[a[j].para as int] == ps[a[j].para as int]);
            } else {
                assert(all[j] == b[j - a.len()]);
            }
        }
        assert forall|p: int, c: int| 0 <= p < ps.len() && 0 <= c < ps[p].controls@.len() && (#[trigger] ps[p].controls@[c]) is Form
            implies exists|j: int| 0 <= j < all.len() && all[j].para == p && all[j].control == c by {
            if p < n {
                assert(d[p] == ps[p]);
                assert(d[p].controls@[c] is Form);
                let j = choose|j: int| 0 <= j < a.len() && a[j].para == p && a[j].control == c;
                assert(all[j] == a[j]);
            } else {
                assert(cs[c] is Form);
                let j = choose|j: int| 0 <= j < b.len() && b[j].control == c;
                assert(all[a.len() + j] == b[j]);
            }
        }
        assert forall|j: int, k: int| 0 <= j < k < all.len() implies comes_before(all[j], all[k]) by {
            if k < a.len() {
                assert(all[j] == a[j] && all[k] == a[k]);
            } else if j < a.len() {
                assert(all[j] == a[j] && all[k] == b[k - a.len()]);
                assert(a[j].para < n);
            } else {
                assert(all[j] == b[j - a.len()] && all[k] == b[k - a.len()]);
            }
        }
    }
}

proof fn lemma_document_forms(ss: Seq<SectionInfo>)
    requires
        ss.len() <= usize::MAX,
        forall|s: int| 0 <= s < ss.len() ==> (#[trigger] ss[s]).paragraphs@.len() <= usize::MAX,
        forall|s: int, p: int| 0 <= s < ss.len() && 0 <= p < ss[s].paragraphs@.len()
            ==> (#[trigger] ss[s].paragraphs@[p]).controls@.len() <= usize::MAX,
    ensures
        forall|j: int| 0 <= j < document_forms(ss).len() ==> {
            let e = #[trigger] document_forms(ss)[j];
            &&& e.section < ss.len()
            &&& e.para < ss[e.section as int].paragraphs@.len()
            &&& e.control < ss[e.section as int].paragraphs@[e.para as int].controls@.len()
            &&& describes_form(e, ss[e.section as int].paragraphs@[e.para as int].controls@[e.control as int])
        },
        forall|s: int, p: int, c: int| 0 <= s < ss.len() && 0 <= p < ss[s].paragraphs@.len() && 0 <= c
            < ss[s].paragraphs@[p].controls@.len() && (#[trigger] ss[s].paragraphs@[p].controls@[c]) is Form
            ==> exists|j: int| 0 <= j < document_forms(ss).len() && document_forms(ss)[j].section == s
                && document_forms(ss)[j].para == p && document_forms(ss)[j].control == c,
        forall|j: int, k: int| 0 <= j < k < document_forms(ss).len()
            ==> comes_before(document_forms(ss)[j], document_forms(ss)[k]),
    decreases ss.len(),
{
    if ss.len() > 0 {
        let d = ss.drop_last();
        let n = ss.len() - 1;
        assert forall|s: int| 0 <= s < d.len() implies (#[trigger] d[s]).paragraphs@.len() <= usize::MAX by {
            assert(d[s] == ss[s]);
        }
        assert forall|s: int, p: int| 0 <= s < d.len() && 0 <= p < d[s].paragraphs@.len()
            implies (#[trigger] d[s].paragraphs@[p]).controls@.len() <= usize::MAX by {
            assert(d[s] == ss[s]);
        }
        lemma_document_forms(d);
        assert(ss.last() == ss[n]);
        let ps = ss[n].paragraphs@;
        assert forall|k: int| 0 <= k < ps.len() implies (#[trigger] ps[k]).controls@.len() <= usize::MAX by {
            assert(ss[n].paragraphs@[k] == ps[k]);
        }
        lemma_section_forms(n, ps);
        let a = document_forms(d);
        let b = section_forms(n, ps);
        let all = document_forms(ss);
        assert(all == a + b);
        assert forall|j: int| 0 <= j < all.len() implies {
            let e = #[trigger] all[j];
            &&& e.section < ss.len()
            &&& e.para < ss[e.section as int].paragraphs@.len()
            &&& e.control < ss[e.section as int].paragraphs@[e.para as int].controls@.len()
            &&& describes_form(e, ss[e.section as int].paragraphs@[e.para as int].controls@[e.control as int])
        } by {
            if j < a.len() {
                assert(all[j] == a[j]);
                assert(d[a[j].section as int] == ss[a[j].section as int]);
            } else {
                assert(all[j] == b[j - a.len()]);
            }
        }
        assert forall|s: int, p: int, c: int| 0 <= s < ss.len() && 0 <= p < ss[s].paragraphs@.len() && 0 <= c
            < ss[s].paragraphs@[p].controls@.len() && (#[trigger] ss[s].paragraphs@[p].controls@[c]) is Form
            implies exists|j: int| 0 <= j < all.len() && all[j].section == s && all[j].para == p
                && all[j].control == c by {
            if s < n {
                assert(d[s] == ss[s]);
                assert(d[s].paragraphs@[p].controls@[c] is Form);
                let j = choose|j: int| 0 <= j < a.len() && a[j].section == s && a[j].para == p && a[j].control == c;
                assert(all[j] == a[j]);
            } else {
                assert(ps[p].controls@[c] is Form);
                let j = choose|j: int| 0 <= j < b.len() && b[j].para == p && b[j].control == c;
                assert(all[a.len() + j] == b[j]);
            }
        }
        assert forall|j: int, k: int| 0 <= j < k < all.len() implies comes_before(all[j], all[k]) by {
            if k < a.len() {
                assert(all[j] == a[j] && all[k] == a[k]);
            } else if j < a.len() {
                assert(all[j] == a[j] && all[k] == b[k - a.len()]);
                assert(a[j].section < n);
            } else {
                assert(all[j] == b[j - a.len()] && all[k] == b[k - a.len()]);
            }
        }
    }
}

/// The form list of a document names every form object of its body once, in document order,
/// each entry at the position of a form object and with that object's kind, name, value,
/// caption and text, and names no other control.
pub proof fn law_form_list_is_the_forms(sections: Vec<SectionInfo>)
    ensures
        forall|j: int| 0 <= j < document_forms(sections@).len() ==> {
            let e = #[trigger] document_forms(sections@)[j];
            &&& e.section < sections@.len()
            &&& e.para < sections@[e.section as int].paragraphs@.len()
            &&& e.control < sections@[e.section as int].paragraphs@[e.para as int].controls@.len()
            &&& describes_form(e, sections@[e.section as int].paragraphs@[e.para as int].controls@[e.control as int])
        },
        forall|s: int, p: int, c: int| 0 <= s < sections@.len() && 0 <= p < sections@[s].paragraphs@.len()
            && 0 <= c < sections@[s].paragraphs@[p].controls@.len()
            && (#[trigger] sections@[s].paragraphs@[p].controls@[c]) is Form
            ==> exists|j: int| 0 <= j < document_forms(sections@).len() && document_forms(sections@)[j].section == s
                && document_forms(sections@)[j].para == p && document_forms(sections@)[j].control == c,
        forall|j: int, k: int| 0 <= j < k < document_forms(sections@).len()
            ==> comes_before(document_forms(sections@)[j], document_forms(sections@)[k]),
{
    let ss = sections@;
    assert(ss.len() == sections.len());
    assert forall|s: int| 0 <= s < ss.len() implies (#[trigger] ss[s]).paragraphs@.len() <= usize::MAX by {
        assert(ss[s].paragraphs@.len() == ss[s].paragraphs.len());
    }
    assert forall|s: int, p: int| 0 <= s < ss.len() && 0 <= p < ss[s].paragraphs@.len()
        implies (#[trigger] ss[s].paragraphs@[p]).controls@.len() <= usize::MAX by {
        assert(ss[s].paragraphs@[p].controls@.len() == ss[s].paragraphs@[p].controls.len());
    }
    lemma_document_forms(ss);
}

/// The text of a cell is its paragraphs' texts with one newline character between each two:
/// nothing for no paragraph, the paragraph itself for one, and one more paragraph adds a
/// newline and that paragraph.
pub proof fn law_cell_lines_joined_by_newline(lines: Seq<Seq<char>>, last: Seq<char>)
    ensures
        join_lines(Seq::empty()) == Seq::<char>::empty(),
        join_lines(seq![last]) == last,
        lines.len() > 0 ==> join_lines(lines.push(last)) == join_lines(lines) + seq!['\n'] + last,
        join_lines(lines.push(last)).len() == join_lines(lines).len() + last.len() + if lines.len() > 0 { 1int } else { 0int },
{
    reveal_strlit("\n");
    assert(lines.push(last).drop_last() =~= lines);
    if lines.len() == 0 {
        assert(lines.push(last) =~= seq![last]);
    }
}

/// `needle` stands in `hay` from position `i`: each of its characters equals the character of
/// `hay` at the same offset from `i`.
pub open spec fn stands_at(needle: Seq<char>, hay: Seq<char>, i: int) -> bool {
    &&& 0 <= i
    &&& i + needle.len() <= hay.len()
    &&& forall|k: int| 0 <= k < needle.len() ==> #[trigger] hay[i + k] == needle[k]
}

/// A text occurs in another exactly when it stands there from some position.
pub proof fn law_occurs_in_is_substring(needle: Seq<char>, hay: Seq<char>)
    ensures
        occurs_in(needle, hay) <==> exists|i: int| #[trigger] stands_at(needle, hay, i),
{
    if occurs_in(needle, hay) {
        let i = choose|i: int| 0 <= i <= hay.len() - needle.len() && #[trigger] hay.subrange(i, i + needle.len()) == needle;
        assert forall|k: int| 0 <= k < needle.len() implies #[trigger] hay[i + k] == needle[k] by {
            assert(hay.subrange(i, i + needle.len())[k] == hay[i + k]);
        }
        assert(stands_at(needle, hay, i));
    }
    if exists|i: int| #[trigger] stands_at(needle, hay, i) {
        let i = choose|i: int| #[trigger] stands_at(needle, hay, i);
        assert forall|k: int| 0 <= k < needle.len() implies hay.subrange(i, i + needle.len())[k] == needle[k] by {
            assert(hay[i + k] == needle[k]);
        }
        assert(hay.subrange(i, i + needle.len()) =~= needle);
        assert(0 <= i <= hay.len() - needle.len());
    }
}

/// A form value request carries each given part under its own key and nothing else: the
/// value as a number under `value`, the text as a string under `text`, the caption as a string
/// under `caption`, each key at most once.
pub proof fn law_form_request_members(p: SetFormValueParams)
    ensures
        ({
            let ms = form_members(p);
            &&& ms.len() == (if p.value is Some { 1int } else { 0int }) + (if p.text is Some { 1int } else { 0int })
                + (if p.caption is Some { 1int } else { 0int })
            &&& forall|i: int| 0 <= i < ms.len() ==> {
                let m = #[trigger] ms[i];
                ||| m.0 == seq!['v', 'a', 'l', 'u', 'e'] && p.value is Some && m.1 == JsonScalarView::Int(p.value->0)
                ||| m.0 == seq!['t', 'e', 'x', 't'] && p.text is Some && m.1 == JsonScalarView::Str(p.text->0@)
                ||| m.0 == seq!['c', 'a', 'p', 't', 'i', 'o', 'n'] && p.caption is Some && m.1 == JsonScalarView::Str(p.caption->0@)
            }
            &&& forall|i: int, j: int| 0 <= i < j < ms.len() ==> ms[i].0 != ms[j].0
        }),
{
    reveal_strlit("value");
    reveal_strlit("text");
    reveal_strlit("caption");
    let ms = form_members(p);
    assert forall|i: int, j: int| 0 <= i < j < ms.len() implies ms[i].0 != ms[j].0 by {
        let a = ms[i].0;
        let b = ms[j].0;
        if a.len() == b.len() {
            assert(a[0] != b[0]);
        }
    }
}

} // verus!
