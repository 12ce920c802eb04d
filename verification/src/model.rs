//! A plain snapshot of what the tools read of a document: sections of paragraphs, each with
//! its text and its controls, of which tables and form objects are described further.

use vstd::prelude::*;

verus! {

/// The kind of a form object.
#[derive(Clone, Copy, Debug, PartialEq, Eq, Structural)]
pub enum FormType {
    PushButton,
    CheckBox,
    RadioButton,
    ComboBox,
    Edit,
}

/// The display name of a form kind.
pub open spec fn form_type_name(ft: FormType) -> Seq<char> {
    match ft {
        FormType::PushButton => "PushButton"@,
        FormType::CheckBox => "CheckBox"@,
        FormType::RadioButton => "RadioButton"@,
        FormType::ComboBox => "ComboBox"@,
        FormType::Edit => "Edit"@,
    }
}

/// The display name of a form kind.
pub fn form_type_str(ft: FormType) -> (s: &'static str)
    ensures
        s@ == form_type_name(ft),
{
    match ft {
        FormType::PushButton => "PushButton",
        FormType::CheckBox => "CheckBox",
        FormType::RadioButton => "RadioButton",
        FormType::ComboBox => "ComboBox",
        FormType::Edit => "Edit",
    }
}

/// A form object (button, check box, radio button, combo box, edit box).
#[derive(Clone, Debug)]
pub struct FormInfo {
    pub form_type: FormType,
    pub name: String,
    pub value: i32,
    pub caption: String,
    pub text: String,
}

/// A table cell: its position, its span and the text of each of its paragraphs.
#[derive(Clone, Debug)]
pub struct CellInfo {
    pub row: u16,
    pub col: u16,
    pub row_span: u16,
    pub col_span: u16,
    pub paragraphs: Vec<String>,
}

/// A table: its size and its cells in their stored order.
#[derive(Clone, Debug)]
pub struct TableInfo {
    pub row_count: u16,
    pub col_count: u16,
    pub cells: Vec<CellInfo>,
}

/// A control of a paragraph.
#[derive(Clone, Debug)]
pub enum ControlInfo {
    Table(TableInfo),
    Form(FormInfo),
    /// Any other control (picture, shape, field mark, ...).
    Other,
}

/// A paragraph: its text and its controls.
#[derive(Clone, Debug)]
pub struct ParagraphInfo {
    pub text: String,
    pub controls: Vec<ControlInfo>,
}

/// A section: its paragraphs.
#[derive(Clone, Debug)]
pub struct SectionInfo {
    pub paragraphs: Vec<ParagraphInfo>,
}

} // verus!
