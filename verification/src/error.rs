//! Errors that the tools report, and the message text of each.

use vstd::prelude::*;
use vstd::string::*;
use crate::decimal::{decimal, push_decimal};

verus! {

/// Why a tool call failed.
#[derive(Clone, Debug)]
pub enum ToolError {
    /// No open document has this handle.
    UnknownDoc { doc_id: String },
    /// The section index is not below the number of sections.
    SectionOutOfRange { section: usize, total: usize },
    /// The requested paragraph range `start..=end` selects nothing.
    ParaRangeInvalid { start: usize, end: usize, total: usize },
    /// There is no paragraph at this position.
    ParaNotFound { section: usize, para: usize },
    /// The control at this index is not a table.
    NotATable { control: usize },
    /// The control index is not below the number of controls of the paragraph.
    ControlOutOfRange { control: usize, total: usize },
    /// A form value request names none of value, text and caption.
    FormValueMissing,
    /// The document engine found no form object at this position.
    NoFormAt { section: usize, para: usize, control: usize },
    /// The document engine refused the operation; `detail` is its own message.
    Engine { detail: String },
    /// A file could not be read.
    FileRead { path: String, detail: String },
    /// A file could not be written.
    FileWrite { path: String, detail: String },
}

/// The two classes of error of the protocol.
#[derive(PartialEq, Eq, Structural, Clone, Copy, Debug)]
pub enum ErrorKind {
    /// The request itself is wrong.
    InvalidParams,
    /// The request was sound but the work failed.
    Internal,
}

/// The class of an error: the engine and the file system fail internally, all else is a bad request.
pub open spec fn kind_of(e: ToolError) -> ErrorKind {
    match e {
        ToolError::Engine { .. } => ErrorKind::Internal,
        ToolError::FileRead { .. } => ErrorKind::Internal,
        ToolError::FileWrite { .. } => ErrorKind::Internal,
        _ => ErrorKind::InvalidParams,
    }
}

/// The message text of an error.
pub open spec fn message_text(e: ToolError) -> Seq<char> {
    match e {
        ToolError::UnknownDoc { doc_id } =>
            "알 수 없는 doc_id: "@ + doc_id@ + " (open_document로 먼저 여세요)"@,
        ToolError::SectionOutOfRange { section, total } =>
            "구역 "@ + decimal(section as nat) + " 범위 초과 (총 "@ + decimal(total as nat) + "개)"@,
        ToolError::ParaRangeInvalid { start, end, total } =>
            "문단 범위 "@ + decimal(start as nat) + "..="@ + decimal(end as nat) + " 잘못됨 (총 "@
                + decimal(total as nat) + "개)"@,
        ToolError::ParaNotFound { section, para } =>
            "구역 "@ + decimal(section as nat) + " 문단 "@ + decimal(para as nat) + " 없음"@,
        ToolError::NotATable { control } =>
            "컨트롤 "@ + decimal(control as nat) + "은(는) 표가 아님"@,
        ToolError::ControlOutOfRange { control, total } =>
            "컨트롤 인덱스 "@ + decimal(control as nat) + " 범위 초과 (총 "@ + decimal(total as nat)
                + "개)"@,
        ToolError::FormValueMissing => "value, text, caption 중 최소 하나를 지정해야 한다"@,
        ToolError::NoFormAt { section, para, control } =>
            "("@ + decimal(section as nat) + ", "@ + decimal(para as nat) + ", "@ + decimal(
                control as nat,
            ) + ") 위치에 양식 개체 없음"@,
        ToolError::Engine { detail } => detail@,
        ToolError::FileRead { path, detail } => "파일 읽기 실패 "@ + path@ + ": "@ + detail@,
        ToolError::FileWrite { path, detail } => "파일 쓰기 실패 "@ + path@ + ": "@ + detail@,
    }
}

impl ToolError {
    /// The handle-not-found error for `doc_id`.
    pub fn unknown_doc(doc_id: &str) -> (e: ToolError)
        ensures
            e matches ToolError::UnknownDoc { doc_id: d } && d@ == doc_id@,
    {
        ToolError::UnknownDoc { doc_id: String::from_str(doc_id) }
    }

    /// The class of this error.
    pub fn kind(&self) -> (k: ErrorKind)
        ensures
            k == kind_of(*self),
    {
        match self {
            ToolError::Engine { .. } => ErrorKind::Internal,
            ToolError::FileRead { .. } => ErrorKind::Internal,
            ToolError::FileWrite { .. } => ErrorKind::Internal,
            _ => ErrorKind::InvalidParams,
        }
    }

    /// The message text of this error.
    pub fn message(&self) -> (m: String)
        ensures
            m@ == message_text(*self),
    {
        match self {
            ToolError::UnknownDoc { doc_id } => {
                let mut m = String::from_str("알 수 없는 doc_id: ");
                m.append(doc_id.as_str());
                m.append(" (open_document로 먼저 여세요)");
                m
            },
            ToolError::SectionOutOfRange { section, total } => {
                let mut m = String::from_str("구역 ");
                push_decimal(&mut m, *section as u64);
                m.append(" 범위 초과 (총 ");
                push_decimal(&mut m, *total as u64);
                m.append("개)");
                m
            },
            ToolError::ParaRangeInvalid { start, end, total } => {
                let mut m = String::from_str("문단 범위 ");
                push_decimal(&mut m, *start as u64);
                m.append("..=");
                push_decimal(&mut m, *end as u64);
                m.append(" 잘못됨 (총 ");
                push_decimal(&mut m, *total as u64);
                m.append("개)");
                m
            },
            ToolError::ParaNotFound { section, para } => {
                let mut m = String::from_str("구역 ");
                push_decimal(&mut m, *section as u64);
                m.append(" 문단 ");
                push_decimal(&mut m, *para as u64);
                m.append(" 없음");
                m
            },
            ToolError::NotATable { control } => {
                let mut m = String::from_str("컨트롤 ");
                push_decimal(&mut m, *control as u64);
                m.append("은(는) 표가 아님");
                m
            },
            ToolError::ControlOutOfRange { control, total } => {
                let mut m = String::from_str("컨트롤 인덱스 ");
                push_decimal(&mut m, *control as u64);
                m.append(" 범위 초과 (총 ");
                push_decimal(&mut m, *total as u64);
                m.append("개)");
                m
            },
            ToolError::FormValueMissing => String::from_str(
                "value, text, caption 중 최소 하나를 지정해야 한다",
            ),
            ToolError::NoFormAt { section, para, control } => {
                let mut m = String::from_str("(");
                push_decimal(&mut m, *section as u64);
                m.append(", ");
                push_decimal(&mut m, *para as u64);
                m.append(", ");
                push_decimal(&mut m, *control as u64);
                m.append(") 위치에 양식 개체 없음");
                m
            },
            ToolError::Engine { detail } => detail.clone(),
            ToolError::FileRead { path, detail } => {
                let mut m = String::from_str("파일 읽기 실패 ");
                m.append(path.as_str());
                m.append(": ");
                m.append(detail.as_str());
                m
            },
            ToolError::FileWrite { path, detail } => {
                let mut m = String::from_str("파일 쓰기 실패 ");
                m.append(path.as_str());
                m.append(": ");
                m.append(detail.as_str());
                m
            },
        }
    }
}

} // verus!
