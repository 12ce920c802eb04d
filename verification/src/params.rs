//! The parameters of the tools, with the defaults that each tool documents.

use vstd::prelude::*;

verus! {

/// Opens a document.
#[derive(Clone, Debug)]
pub struct OpenDocumentParams {
    /// Absolute path of the `.hwpx` (or `.hwp`) file to open.
    pub path: String,
}

/// Saves a document.
#[derive(Clone, Debug)]
pub struct SaveDocumentParams {
    /// Handle that `open_document` returned.
    pub doc_id: String,
    /// Where to save; the path the document came from when absent. The extension must be `.hwpx`.
    pub output_path: Option<String>,
}

/// Names one open document.
#[derive(Clone, Debug)]
pub struct DocIdParams {
    /// Handle that `open_document` returned.
    pub doc_id: String,
}

/// Reads the full text of a range of paragraphs.
#[derive(Clone, Debug)]
pub struct GetTextParams {
    /// Document handle.
    pub doc_id: String,
    /// Section index (0-based).
    pub section: usize,
    /// First paragraph (0 when absent).
    pub para_start: Option<usize>,
    /// Last paragraph, inclusive (the end of the section when absent).
    pub para_end: Option<usize>,
}

/// Names a table control.
#[derive(Clone, Debug)]
pub struct GetTableParams {
    /// Document handle.
    pub doc_id: String,
    /// Section index.
    pub section: usize,
    /// Index of the paragraph that holds the table.
    pub para: usize,
    /// Index of the control within the paragraph.
    pub control: usize,
}

/// Searches the document for a text.
#[derive(Clone, Debug)]
pub struct SearchTextParams {
    /// Document handle.
    pub doc_id: String,
    /// Text to search for.
    pub query: String,
    /// Whether case matters (default false).
    pub case_sensitive: Option<bool>,
    /// Whether table cells are searched too (default true).
    pub include_cells: Option<bool>,
}

/// Replaces a text.
#[derive(Clone, Debug)]
pub struct ReplaceTextParams {
    /// Document handle.
    pub doc_id: String,
    /// Text to find.
    pub query: String,
    /// Text to put in its place.
    pub replacement: String,
    /// Every match when true, the first only when false (default true).
    pub all: Option<bool>,
    /// Whether case matters (default false).
    pub case_sensitive: Option<bool>,
}

/// Inserts text into a paragraph.
#[derive(Clone, Debug)]
pub struct InsertTextParams {
    /// Document handle.
    pub doc_id: String,
    /// Section index.
    pub section: usize,
    /// Paragraph index.
    pub para: usize,
    /// Insertion point, in characters (0-based).
    pub char_offset: usize,
    /// Text to insert.
    pub text: String,
}

/// Deletes text from a paragraph.
#[derive(Clone, Debug)]
pub struct DeleteTextParams {
    /// Document handle.
    pub doc_id: String,
    /// Section index.
    pub section: usize,
    /// Paragraph index.
    pub para: usize,
    /// First character to delete.
    pub char_offset: usize,
    /// Number of characters to delete.
    pub count: usize,
}

/// Names a paragraph.
#[derive(Clone, Debug)]
pub struct ParaParams {
    /// Document handle.
    pub doc_id: String,
    /// Section index.
    pub section: usize,
    /// Paragraph index.
    pub para: usize,
}

/// Splits a paragraph in two.
#[derive(Clone, Debug)]
pub struct SplitParagraphParams {
    /// Document handle.
    pub doc_id: String,
    /// Section index.
    pub section: usize,
    /// Paragraph to split.
    pub para: usize,
    /// Split point, in characters.
    pub char_offset: usize,
}

/// Replaces the text of a paragraph of a table cell.
#[derive(Clone, Debug)]
pub struct SetCellTextParams {
    /// Document handle.
    pub doc_id: String,
    /// Section index.
    pub section: usize,
    /// Index of the paragraph that holds the table.
    pub para: usize,
    /// Index of the control within the paragraph.
    pub control: usize,
    /// Flat cell index (the `cell_idx` of `get_table`).
    pub cell: usize,
    /// Paragraph within the cell (0 when absent).
    pub cell_para: Option<usize>,
    /// The new text; the old text of the cell paragraph is deleted.
    pub text: String,
}

/// Inserts a table row.
#[derive(Clone, Debug)]
pub struct InsertTableRowParams {
    /// Document handle.
    pub doc_id: String,
    /// Section index.
    pub section: usize,
    /// Index of the paragraph that holds the table.
    pub para: usize,
    /// Index of the control within the paragraph.
    pub control: usize,
    /// Reference row (0-based).
    pub row: u16,
    /// Below the reference row when true, above when false (default true).
    pub below: Option<bool>,
}

/// Inserts a table column.
#[derive(Clone, Debug)]
pub struct InsertTableColumnParams {
    /// Document handle.
    pub doc_id: String,
    /// Section index.
    pub section: usize,
    /// Index of the paragraph that holds the table.
    pub para: usize,
    /// Index of the control within the paragraph.
    pub control: usize,
    /// Reference column (0-based).
    pub col: u16,
    /// Right of the reference column when true, left when false (default true).
    pub right: Option<bool>,
}

/// Deletes a table row.
#[derive(Clone, Debug)]
pub struct DeleteTableRowParams {
    /// Document handle.
    pub doc_id: String,
    /// Section index.
    pub section: usize,
    /// Index of the paragraph that holds the table.
    pub para: usize,
    /// Index of the control within the paragraph.
    pub control: usize,
    /// Row to delete (0-based).
    pub row: u16,
}

/// Deletes a table column.
#[derive(Clone, Debug)]
pub struct DeleteTableColumnParams {
    /// Document handle.
    pub doc_id: String,
    /// Section index.
    pub section: usize,
    /// Index of the paragraph that holds the table.
    pub para: usize,
    /// Index of the control within the paragraph.
    pub control: usize,
    /// Column to delete (0-based).
    pub col: u16,
}

/// Shrinks a table to the body width of its page.
#[derive(Clone, Debug)]
pub struct FitTableToPageParams {
    /// Document handle.
    pub doc_id: String,
    /// Section index.
    pub section: usize,
    /// Index of the paragraph that holds the table.
    pub para: usize,
    /// Index of the control within the paragraph.
    pub control: usize,
}

/// Sets the width of every column of a table.
#[derive(Clone, Debug)]
pub struct SetTableColumnWidthsParams {
    /// Document handle.
    pub doc_id: String,
    /// Section index.
    pub section: usize,
    /// Index of the paragraph that holds the table.
    pub para: usize,
    /// Index of the control within the paragraph.
    pub control: usize,
    /// One width per column, in HWPUNIT.
    pub widths: Vec<u32>,
}

/// Names a field (click-here field).
#[derive(Clone, Debug)]
pub struct FieldByNameParams {
    /// Document handle.
    pub doc_id: String,
    /// Field name.
    pub name: String,
}

/// Sets the value of a field.
#[derive(Clone, Debug)]
pub struct SetFieldValueParams {
    /// Document handle.
    pub doc_id: String,
    /// Field name.
    pub name: String,
    /// The value; it replaces the text of the field's range.
    pub value: String,
}

/// Names a form object.
#[derive(Clone, Debug)]
pub struct FormAtParams {
    /// Document handle.
    pub doc_id: String,
    /// Section index (0-based).
    pub section: usize,
    /// Paragraph index (0-based).
    pub para: usize,
    /// Control index within the paragraph (the `control` of `list_forms`).
    pub control: usize,
}

/// Sets the value of a form object; at least one of value, text and caption is given.
#[derive(Clone, Debug)]
pub struct SetFormValueParams {
    /// Document handle.
    pub doc_id: String,
    /// Section index (0-based).
    pub section: usize,
    /// Paragraph index (0-based).
    pub para: usize,
    /// Control index within the paragraph (the `control` of `list_forms`).
    pub control: usize,
    /// Check state (check box and radio button: 0 clear, 1 set).
    pub value: Option<i32>,
    /// Text (combo box selection, edit box input).
    pub text: Option<String>,
    /// Caption (label of push button, check box, radio button).
    pub caption: Option<String>,
}

/// The flag given, or `default` when it is absent.
pub open spec fn flag_or(flag: Option<bool>, default: bool) -> bool {
    match flag {
        Some(b) => b,
        None => default,
    }
}

fn resolve_flag(flag: Option<bool>, default: bool) -> (b: bool)
    ensures
        b == flag_or(flag, default),
{
    match flag {
        Some(b) => b,
        None => default,
    }
}

impl SearchTextParams {
    /// Whether case matters: false unless given.
    pub fn case_sensitive_or_default(&self) -> (b: bool)
        ensures
            b == flag_or(self.case_sensitive, false),
    {
        resolve_flag(self.case_sensitive, false)
    }

    /// Whether table cells are searched: true unless given.
    pub fn include_cells_or_default(&self) -> (b: bool)
        ensures
            b == flag_or(self.include_cells, true),
    {
        resolve_flag(self.include_cells, true)
    }
}

impl ReplaceTextParams {
    /// Whether every match is replaced: true unless given.
    pub fn all_or_default(&self) -> (b: bool)
        ensures
            b == flag_or(self.all, true),
    {
        resolve_flag(self.all, true)
    }

    /// Whether case matters: false unless given.
    pub fn case_sensitive_or_default(&self) -> (b: bool)
        ensures
            b == flag_or(self.case_sensitive, false),
    {
        resolve_flag(self.case_sensitive, false)
    }
}

impl InsertTableRowParams {
    /// Whether the row goes below the reference row: true unless given.
    pub fn below_or_default(&self) -> (b: bool)
        ensures
            b == flag_or(self.below, true),
    {
        resolve_flag(self.below, true)
    }
}

impl InsertTableColumnParams {
    /// Whether the column goes right of the reference column: true unless given.
    pub fn right_or_default(&self) -> (b: bool)
        ensures
            b == flag_or(self.right, true),
    {
        resolve_flag(self.right, true)
    }
}

/// What replacing the text of a cell paragraph takes: the cell paragraph, and how many
/// characters to delete first (none when the paragraph is empty).
#[derive(Clone, Copy, Debug, PartialEq, Eq, Structural)]
pub struct CellTextPlan {
    /// Paragraph within the cell.
    pub cell_para: usize,
    /// Characters to delete from offset 0 before inserting, if any.
    pub delete_count: Option<usize>,
}

impl SetCellTextParams {
    /// The cell paragraph addressed: 0 unless given.
    pub fn cell_para_or_default(&self) -> (p: usize)
        ensures
            p == match self.cell_para {
                Some(c) => c,
                None => 0,
            },
    {
        match self.cell_para {
            Some(c) => c,
            None => 0,
        }
    }

    /// The plan for replacing the cell paragraph's text, given its current length in characters.
    pub fn plan(&self, old_len: usize) -> (plan: CellTextPlan)
        ensures
            plan.cell_para == match self.cell_para {
                Some(c) => c,
                None => 0,
            },
            plan.delete_count == if old_len > 0 { Some(old_len) } else { None::<usize> },
    {
        CellTextPlan {
            cell_para: self.cell_para_or_default(),
            delete_count: if old_len > 0 { Some(old_len) } else { None },
        }
    }
}

} // verus!
