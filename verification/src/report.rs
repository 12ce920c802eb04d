//! What the reading tools report of a document snapshot: its structure, the text of a range
//! of paragraphs, the contents of a table and the list of form objects.

use vstd::prelude::*;
use crate::error::ToolError;
use crate::model::{CellInfo, ControlInfo, FormInfo, FormType, ParagraphInfo, SectionInfo};
use crate::params::{GetTableParams, GetTextParams};
use crate::text::{join_lines, join_with_newlines, prefix_of, preview, PREVIEW_CHARS};

verus! {

/// A table among the controls of a paragraph.
#[derive(Clone, Copy, Debug, PartialEq, Eq, Structural)]
pub struct TableRef {
    /// Index of the control within the paragraph.
    pub control: usize,
    pub rows: u16,
    pub cols: u16,
}

/// The overview of one paragraph. The optional parts are present only when they say
/// something: a preview that was cut, tables that exist, controls that exist.
#[derive(Clone, Debug)]
pub struct ParagraphOverview {
    pub para: usize,
    /// The first characters of the text.
    pub preview: String,
    /// Number of characters of the text.
    pub chars: usize,
    /// `Some(true)` when the preview is shorter than the text.
    pub preview_truncated: Option<bool>,
    /// The tables of the paragraph, when it has any.
    pub tables: Option<Vec<TableRef>>,
    /// The number of controls of the paragraph, when it has any.
    pub controls_total: Option<usize>,
}

/// The overview of one section.
#[derive(Clone, Debug)]
pub struct SectionOverview {
    pub section: usize,
    pub paragraphs: Vec<ParagraphOverview>,
}

/// The tables among `cs`, each with its index.
pub open spec fn table_refs(cs: Seq<ControlInfo>) -> Seq<TableRef>
    decreases cs.len(),
{
    if cs.len() == 0 {
        Seq::empty()
    } else {
        let before = table_refs(cs.drop_last());
        match cs.last() {
            ControlInfo::Table(t) => before.push(
                TableRef { control: (cs.len() - 1) as usize, rows: t.row_count, cols: t.col_count },
            ),
            _ => before,
        }
    }
}

/// `o` is the overview of paragraph `p` at index `i`.
pub open spec fn is_overview(o: ParagraphOverview, i: int, p: ParagraphInfo) -> bool {
    &&& o.para == i
    &&& o.preview@ == prefix_of(p.text@, PREVIEW_CHARS as nat)
    &&& o.chars == p.text@.len()
    &&& o.preview_truncated == if p.text@.len() > PREVIEW_CHARS { Some(true) } else { None::<bool> }
    &&& (o.tables is Some <==> table_refs(p.controls@).len() > 0)
    &&& (o.tables matches Some(t) ==> t@ == table_refs(p.controls@))
    &&& o.controls_total == if p.controls@.len() > 0 {
        Some(p.controls@.len() as usize)
    } else {
        None::<usize>
    }
}

/// The tables among the controls, each with its index.
pub fn tables_of(controls: &Vec<ControlInfo>) -> (r: Vec<TableRef>)
    ensures
        r@ == table_refs(controls@),
{
    let mut r: Vec<TableRef> = Vec::new();
    let mut i: usize = 0;
    while i < controls.len()
        invariant
            i <= controls@.len(),
            r@ == table_refs(controls@.take(i as int)),
        decreases controls@.len() - i,
    {
        proof {
            assert(controls@.take(i + 1).drop_last() =~= controls@.take(i as int));
        }
        match &controls[i] {
            ControlInfo::Table(t) => {
                r.push(TableRef { control: i, rows: t.row_count, cols: t.col_count });
            },
            _ => {},
        }
        i = i + 1;
    }
    assert(controls@.take(controls@.len() as int) =~= controls@);
    r
}

/// The overview of paragraph `p` at index `i`.
pub fn paragraph_overview(i: usize, p: &ParagraphInfo) -> (o: ParagraphOverview)
    ensures
        is_overview(o, i as int, *p),
{
    let (text_preview, chars) = preview(p.text.as_str(), PREVIEW_CHARS);
    let tables = tables_of(&p.controls);
    let n = p.controls.len();
    ParagraphOverview {
        para: i,
        preview: text_preview,
        chars,
        preview_truncated: if chars > PREVIEW_CHARS { Some(true) } else { None },
        tables: if tables.len() > 0 { Some(tables) } else { None },
        controls_total: if n > 0 { Some(n) } else { None },
    }
}

/// The structure of the document: for each section, the overview of each of its paragraphs.
pub fn structure(sections: &Vec<SectionInfo>) -> (r: Vec<SectionOverview>)
    ensures
        r@.len() == sections@.len(),
        forall|s: int| 0 <= s < r@.len() ==> {
            &&& (#[trigger] r@[s]).section == s
            &&& r@[s].paragraphs@.len() == sections@[s].paragraphs@.len()
            &&& forall|i: int| 0 <= i < r@[s].paragraphs@.len() ==> is_overview(
                #[trigger] r@[s].paragraphs@[i],
                i,
                sections@[s].paragraphs@[i],
            )
        },
{
    let mut r: Vec<SectionOverview> = Vec::new();
    let mut s: usize = 0;
    while s < sections.len()
        invariant
            s <= sections@.len(),
            r@.len() == s,
            forall|k: int| 0 <= k < s ==> {
                &&& (#[trigger] r@[k]).section == k
                &&& r@[k].paragraphs@.len() == sections@[k].paragraphs@.len()
                &&& forall|i: int| 0 <= i < r@[k].paragraphs@.len() ==> is_overview(
                    #[trigger] r@[k].paragraphs@[i],
                    i,
                    sections@[k].paragraphs@[i],
                )
            },
        decreases sections@.len() - s,
    {
        let paras = &sections[s].paragraphs;
        let mut out: Vec<ParagraphOverview> = Vec::new();
        let mut i: usize = 0;
        while i < paras.len()
            invariant
                i <= paras@.len(),
                out@.len() == i,
                forall|k: int| 0 <= k < i ==> is_overview(#[trigger] out@[k], k, paras@[k]),
            decreases paras@.len() - i,
        {
            out.push(paragraph_overview(i, &paras[i]));
            i = i + 1;
        }
        r.push(SectionOverview { section: s, paragraphs: out });
        s = s + 1;
    }
    r
}

/// The number of paragraphs of each section.
pub fn paragraph_counts(sections: &Vec<SectionInfo>) -> (r: Vec<usize>)
    ensures
        r@.len() == sections@.len(),
        forall|i: int| 0 <= i < r@.len() ==> r@[i] == sections@[i].paragraphs@.len(),
{
    let mut r: Vec<usize> = Vec::new();
    let mut i: usize = 0;
    while i < sections.len()
        invariant
            i <= sections@.len(),
            r@.len() == i,
            forall|k: int| 0 <= k < i ==> r@[k] == sections@[k].paragraphs@.len(),
        decreases sections@.len() - i,
    {
        r.push(sections[i].paragraphs.len());
        i = i + 1;
    }
    r
}

/// One paragraph of a text report.
#[derive(Clone, Debug)]
pub struct ParagraphText {
    pub para: usize,
    pub text: String,
}

/// The full text of a range of paragraphs of a section.
#[derive(Clone, Debug)]
pub struct TextReport {
    pub section: usize,
    pub paragraphs: Vec<ParagraphText>,
}

/// The requested start of a paragraph range: 0 unless given.
pub open spec fn range_start(p: GetTextParams) -> nat {
    match p.para_start {
        Some(s) => s as nat,
        None => 0,
    }
}

/// The requested end of a paragraph range: the last paragraph of a section of `total`
/// paragraphs unless given (0 for an empty section).
pub open spec fn range_end(p: GetTextParams, total: nat) -> nat {
    match p.para_end {
        Some(e) => e as nat,
        None => if total > 0 { (total - 1) as nat } else { 0 },
    }
}

/// The paragraphs that a text request selects from a section of `total` paragraphs,
/// `first..=last`, or `None` when the range is wrong: its start is past the section, or its
/// end before its start. An end past the section stops at the section's end.
pub open spec fn selected_range(p: GetTextParams, total: nat) -> Option<(nat, nat)> {
    let start = range_start(p);
    let end = range_end(p, total);
    if start >= total || end < start {
        None
    } else {
        Some((start, if end < total { end } else { (total - 1) as nat }))
    }
}

/// The full text of the paragraphs that `p` selects.
pub fn text_report(sections: &Vec<SectionInfo>, p: &GetTextParams) -> (r: Result<TextReport, ToolError>)
    ensures
        p.section >= sections@.len() ==> (r matches Err(ToolError::SectionOutOfRange { section, total })
            && section == p.section && total == sections@.len()),
        p.section < sections@.len() ==> {
            let ps = sections@[p.section as int].paragraphs@;
            match selected_range(*p, ps.len()) {
                None => r matches Err(ToolError::ParaRangeInvalid { start, end, total })
                    && start == range_start(*p) && end == range_end(*p, ps.len()) && total == ps.len(),
                Some((first, last)) => r matches Ok(rep) && rep.section == p.section
                    && rep.paragraphs@.len() == last - first + 1
                    && forall|k: int| 0 <= k < rep.paragraphs@.len() ==> {
                        &&& (#[trigger] rep.paragraphs@[k]).para == first + k
                        &&& rep.paragraphs@[k].text == ps[first + k].text
                    },
            }
        },
{
    if p.section >= sections.len() {
        return Err(ToolError::SectionOutOfRange { section: p.section, total: sections.len() });
    }
    let paras = &sections[p.section].paragraphs;
    let total = paras.len();
    let start = match p.para_start {
        Some(s) => s,
        None => 0,
    };
    let end = match p.para_end {
        Some(e) => e,
        None => if total > 0 { total - 1 } else { 0 },
    };
    if start >= total || end < start {
        return Err(ToolError::ParaRangeInvalid { start, end, total });
    }
    let last = if end < total { end } else { total - 1 };
    let mut out: Vec<ParagraphText> = Vec::new();
    let mut i: usize = start;
    while i <= last
        invariant
            start <= i <= last + 1,
            last < total,
            total == paras@.len(),
            out@.len() == i - start,
            forall|k: int| 0 <= k < out@.len() ==> {
                &&& (#[trigger] out@[k]).para == start + k
                &&& out@[k].text == paras@[start + k].text
            },
        decreases last + 1 - i,
    {
        out.push(ParagraphText { para: i, text: paras[i].text.clone() });
        i = i + 1;
    }
    Ok(TextReport { section: p.section, paragraphs: out })
}

/// One cell of a table report.
#[derive(Clone, Debug)]
pub struct CellReport {
    /// Flat index of the cell: what `set_cell_text` takes.
    pub cell_idx: usize,
    pub row: u16,
    pub col: u16,
    /// The texts of the cell's paragraphs, one per line.
    pub text: String,
    /// Number of paragraphs of the cell.
    pub cell_paragraphs: usize,
    /// Row and column span, present only for a cell that spans more than one row or column.
    pub span: Option<(u16, u16)>,
}

/// The size and the cells of a table.
#[derive(Clone, Debug)]
pub struct TableReport {
    pub rows: u16,
    pub cols: u16,
    pub cells: Vec<CellReport>,
}

/// `c` reports cell `cell` at flat index `k`.
pub open spec fn is_cell_report(c: CellReport, k: int, cell: CellInfo) -> bool {
    &&& c.cell_idx == k
    &&& c.row == cell.row
    &&& c.col == cell.col
    &&& c.text@ == join_lines(cell.paragraphs@.map_values(|l: String| l@))
    &&& c.cell_paragraphs == cell.paragraphs@.len()
    &&& c.span == if cell.row_span > 1 || cell.col_span > 1 {
        Some((cell.row_span, cell.col_span))
    } else {
        None::<(u16, u16)>
    }
}

/// The report of cell `cell` at flat index `k`.
pub fn cell_report(k: usize, cell: &CellInfo) -> (c: CellReport)
    ensures
        is_cell_report(c, k as int, *cell),
{
    CellReport {
        cell_idx: k,
        row: cell.row,
        col: cell.col,
        text: join_with_newlines(&cell.paragraphs),
        cell_paragraphs: cell.paragraphs.len(),
        span: if cell.row_span > 1 || cell.col_span > 1 {
            Some((cell.row_span, cell.col_span))
        } else {
            None
        },
    }
}

/// The size and cells of the table that `p` names. Errors: no paragraph at the position,
/// no control at the index, or a control that is not a table.
pub fn table_report(sections: &Vec<SectionInfo>, p: &GetTableParams) -> (r: Result<TableReport, ToolError>)
    ensures
        !(p.section < sections@.len() && p.para < sections@[p.section as int].paragraphs@.len())
            ==> (r matches Err(ToolError::ParaNotFound { section, para }) && section == p.section
            && para == p.para),
        p.section < sections@.len() && p.para < sections@[p.section as int].paragraphs@.len() ==> {
            let cs = sections@[p.section as int].paragraphs@[p.para as int].controls@;
            if p.control >= cs.len() {
                r matches Err(ToolError::ControlOutOfRange { control, total }) && control == p.control
                    && total == cs.len()
            } else {
                match cs[p.control as int] {
                    ControlInfo::Table(t) => r matches Ok(rep) && rep.rows == t.row_count
                        && rep.cols == t.col_count && rep.cells@.len() == t.cells@.len()
                        && forall|k: int| 0 <= k < rep.cells@.len() ==> is_cell_report(
                            #[trigger] rep.cells@[k],
                            k,
                            t.cells@[k],
                        ),
                    _ => r matches Err(ToolError::NotATable { control }) && control == p.control,
                }
            }
        },
{
    if p.section >= sections.len() || p.para >= sections[p.section].paragraphs.len() {
        return Err(ToolError::ParaNotFound { section: p.section, para: p.para });
    }
    let para = &sections[p.section].paragraphs[p.para];
    if p.control >= para.controls.len() {
        return Err(ToolError::ControlOutOfRange { control: p.control, total: para.controls.len() });
    }
    match &para.controls[p.control] {
        ControlInfo::Table(t) => {
            let mut cells: Vec<CellReport> = Vec::new();
            let mut k: usize = 0;
            while k < t.cells.len()
                invariant
                    k <= t.cells@.len(),
                    cells@.len() == k,
                    forall|j: int| 0 <= j < k ==> is_cell_report(#[trigger] cells@[j], j, t.cells@[j]),
                decreases t.cells@.len() - k,
            {
                cells.push(cell_report(k, &t.cells[k]));
                k = k + 1;
            }
            Ok(TableReport { rows: t.row_count, cols: t.col_count, cells })
        },
        _ => Err(ToolError::NotATable { control: p.control }),
    }
}

/// A form object and where it stands.
#[derive(Clone, Debug)]
pub struct FormEntry {
    pub section: usize,
    pub para: usize,
    /// Index of the control within the paragraph.
    pub control: usize,
    pub form_type: FormType,
    pub name: String,
    pub value: i32,
    pub caption: String,
    pub text: String,
}

/// The entry of form `f` at control `c` of paragraph `p` of section `s`.
pub open spec fn form_entry(s: int, p: int, c: int, f: FormInfo) -> FormEntry {
    FormEntry {
        section: s as usize,
        para: p as usize,
        control: c as usize,
        form_type: f.form_type,
        name: f.name,
        value: f.value,
        caption: f.caption,
        text: f.text,
    }
}

/// The form objects among the controls `cs` of paragraph `p` of section `s`, in control order.
pub open spec fn paragraph_forms(s: int, p: int, cs: Seq<ControlInfo>) -> Seq<FormEntry>
    decreases cs.len(),
{
    if cs.len() == 0 {
        Seq::empty()
    } else {
        let before = paragraph_forms(s, p, cs.drop_last());
        match cs.last() {
            ControlInfo::Form(f) => before.push(form_entry(s, p, cs.len() - 1, f)),
            _ => before,
        }
    }
}

/// The form objects of the paragraphs `ps` of section `s`, in document order.
pub open spec fn section_forms(s: int, ps: Seq<ParagraphInfo>) -> Seq<FormEntry>
    decreases ps.len(),
{
    if ps.len() == 0 {
        Seq::empty()
    } else {
        section_forms(s, ps.drop_last()) + paragraph_forms(s, ps.len() - 1, ps.last().controls@)
    }
}

/// The form objects of the body of a document, in document order. Forms inside table cells
/// are not among them.
pub open spec fn document_forms(ss: Seq<SectionInfo>) -> Seq<FormEntry>
    decreases ss.len(),
{
    if ss.len() == 0 {
        Seq::empty()
    } else {
        document_forms(ss.drop_last()) + section_forms(ss.len() - 1, ss.last().paragraphs@)
    }
}

fn entry_of(s: usize, p: usize, c: usize, f: &FormInfo) -> (e: FormEntry)
    ensures
        e == form_entry(s as int, p as int, c as int, *f),
{
    FormEntry {
        section: s,
        para: p,
        control: c,
        form_type: f.form_type,
        name: f.name.clone(),
        value: f.value,
        caption: f.caption.clone(),
        text: f.text.clone(),
    }
}

/// Every form object of the body of the document, with its position, in document order.
pub fn list_forms(sections: &Vec<SectionInfo>) -> (r: Vec<FormEntry>)
    ensures
        r@ == document_forms(sections@),
{
    let mut out: Vec<FormEntry> = Vec::new();
    let mut s: usize = 0;
    while s < sections.len()
        invariant
            s <= sections@.len(),
            out@ == document_forms(sections@.take(s as int)),
        decreases sections@.len() - s,
    {
        let paras = &sections[s].paragraphs;
        let ghost before_section = out@;
        let mut p: usize = 0;
        while p < paras.len()
            invariant
                s < sections@.len(),
                paras == sections@[s as int].paragraphs,
                p <= paras@.len(),
                out@ == before_section + section_forms(s as int, paras@.take(p as int)),
            decreases paras@.len() - p,
        {
            let controls = &paras[p].controls;
            let ghost before_para = out@;
            let mut c: usize = 0;
            while c < controls.len()
                invariant
                    p < paras@.len(),
                    controls == paras@[p as int].controls,
                    c <= controls@.len(),
                    out@ == before_para + paragraph_forms(s as int, p as int, controls@.take(c as int)),
                decreases controls@.len() - c,
            {
                proof {
                    assert(controls@.take(c + 1).drop_last() =~= controls@.take(c as int));
                }
                match &controls[c] {
                    ControlInfo::Form(f) => {
                        out.push(entry_of(s, p, c, f));
                    },
                    _ => {},
                }
                c = c + 1;
                proof {
                    let pf = paragraph_forms(s as int, p as int, controls@.take(c as int));
                    assert(out@ =~= before_para + pf);
                }
            }
            proof {
                assert(controls@.take(c as int) =~= controls@);
                assert(paras@.take(p + 1).drop_last() =~= paras@.take(p as int));
                assert(paras@.take(p + 1).last() == paras@[p as int]);
                assert(out@ =~= before_section + section_forms(s as int, paras@.take(p + 1)));
            }
            p = p + 1;
        }
        proof {
            assert(paras@.take(p as int) =~= paras@);
            assert(sections@.take(s + 1).drop_last() =~= sections@.take(s as int));
            assert(sections@.take(s + 1).last() == sections@[s as int]);
            assert(out@ =~= document_forms(sections@.take(s + 1)));
        }
        s = s + 1;
    }
    assert(sections@.take(s as int) =~= sections@);
    out
}

} // verus!
