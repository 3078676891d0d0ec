//! The errors that perfmode reports.
use vstd::prelude::*;

verus! {

/// What can go wrong while locating, reading or writing a sysfs node.
/// Paths are held as text; the cause of a failed read or write is the
/// operating system's description of it.
#[derive(Debug)]
pub enum Error {
    NodeNotFound { path: String },
    PermissionDenied { path: String },
    ReadFailed { path: String, source: String },
    WriteFailed { path: String, source: String },
    UnexpectedValue { path: String, value: String },
    NoDriverDetected,
    InvalidOperation { subsystem: String, operation: String },
    BatteryNotSupported,
}

/// An [`Error`] with its text taken as character sequences.
pub enum ErrorView {
    NodeNotFound { path: Seq<char> },
    PermissionDenied { path: Seq<char> },
    ReadFailed { path: Seq<char>, source: Seq<char> },
    WriteFailed { path: Seq<char>, source: Seq<char> },
    UnexpectedValue { path: Seq<char>, value: Seq<char> },
    NoDriverDetected,
    InvalidOperation { subsystem: Seq<char>, operation: Seq<char> },
    BatteryNotSupported,
}

impl View for Error {
    type V = ErrorView;

    open spec fn view(&self) -> ErrorView {
        match self {
            Error::NodeNotFound { path } => ErrorView::NodeNotFound { path: path@ },
            Error::PermissionDenied { path } => ErrorView::PermissionDenied { path: path@ },
            Error::ReadFailed { path, source } => ErrorView::ReadFailed {
                path: path@,
                source: source@,
            },
            Error::WriteFailed { path, source } => ErrorView::WriteFailed {
                path: path@,
                source: source@,
            },
            Error::UnexpectedValue { path, value } => ErrorView::UnexpectedValue {
                path: path@,
                value: value@,
            },
            Error::NoDriverDetected => ErrorView::NoDriverDetected,
            Error::InvalidOperation { subsystem, operation } => ErrorView::InvalidOperation {
                subsystem: subsystem@,
                operation: operation@,
            },
            Error::BatteryNotSupported => ErrorView::BatteryNotSupported,
        }
    }
}

/// A result carrying text, taken with its text and error as views.
pub open spec fn view_result(r: Result<String, Error>) -> Result<Seq<char>, ErrorView> {
    match r {
        Ok(s) => Ok(s@),
        Err(e) => Err(e@),
    }
}

} // verus!
