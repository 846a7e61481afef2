//! The editor's error type.
use vstd::prelude::*;
use crate::text::owned;

verus! {

/// Why reading or writing a workbook failed.
#[derive(Debug, Clone, PartialEq)]
pub enum AppError {
    /// The file system refused an operation; the message says why.
    Io(String),
    /// The content could not be decoded or encoded; the message says why.
    Parse(String),
    /// The file extension names no supported format (empty when there is none).
    UnsupportedFormat(String),
}

/// The message an error carries.
pub open spec fn error_text(e: AppError) -> Seq<char> {
    match e {
        AppError::Io(m) => m@,
        AppError::Parse(m) => m@,
        AppError::UnsupportedFormat(m) => m@,
    }
}

impl AppError {
    /// The message this error carries; see `error_text`.
    pub fn message(&self) -> (m: String)
        ensures
            m@ == error_text(*self),
    {
        match self {
            AppError::Io(m) => owned(m.as_str()),
            AppError::Parse(m) => owned(m.as_str()),
            AppError::UnsupportedFormat(m) => owned(m.as_str()),
        }
    }
}

}
