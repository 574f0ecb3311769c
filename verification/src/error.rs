//! The ways in which a scan request or a scan attempt fails.

use vstd::prelude::*;

verus! {

/// Why a request was rejected or an attempt ended without a result.
#[derive(Debug, PartialEq, Eq)]
pub enum ScanError {
    /// A malformed address, range, port list or mode; rejected before admission.
    Validation { message: String },
    /// The external tool could not be started.
    Spawn { message: String },
    /// The external tool ended with a non-zero exit status; carries what it
    /// wrote to its error stream.
    ToolExit { message: String },
    /// The external tool ran longer than its wall-clock budget and was killed.
    Timeout,
    /// Structured tool output could not be decoded.
    Decode { message: String },
    /// A storage call failed.
    Persistence { message: String },
    /// The attempt was cancelled: a terminal outcome rather than a fault.
    Cancelled,
}

/// The view of a `ScanError`.
pub enum ScanErrorView {
    Validation { message: Seq<char> },
    Spawn { message: Seq<char> },
    ToolExit { message: Seq<char> },
    Timeout,
    Decode { message: Seq<char> },
    Persistence { message: Seq<char> },
    Cancelled,
}

impl View for ScanError {
    type V = ScanErrorView;

    open spec fn view(&self) -> ScanErrorView {
        match self {
            ScanError::Validation { message } => ScanErrorView::Validation { message: message@ },
            ScanError::Spawn { message } => ScanErrorView::Spawn { message: message@ },
            ScanError::ToolExit { message } => ScanErrorView::ToolExit { message: message@ },
            ScanError::Timeout => ScanErrorView::Timeout,
            ScanError::Decode { message } => ScanErrorView::Decode { message: message@ },
            ScanError::Persistence { message } => ScanErrorView::Persistence { message: message@ },
            ScanError::Cancelled => ScanErrorView::Cancelled,
        }
    }
}

impl DeepView for ScanError {
    type V = ScanErrorView;

    open spec fn deep_view(&self) -> ScanErrorView {
        self@
    }
}

impl Clone for ScanError {
    fn clone(&self) -> (r: Self)
        ensures
            r@ == self@,
    {
        match self {
            ScanError::Validation { message } => ScanError::Validation { message: message.clone() },
            ScanError::Spawn { message } => ScanError::Spawn { message: message.clone() },
            ScanError::ToolExit { message } => ScanError::ToolExit { message: message.clone() },
            ScanError::Timeout => ScanError::Timeout,
            ScanError::Decode { message } => ScanError::Decode { message: message.clone() },
            ScanError::Persistence { message } => ScanError::Persistence {
                message: message.clone(),
            },
            ScanError::Cancelled => ScanError::Cancelled,
        }
    }
}

/// The human-readable message of an error, as a failed scan shows it.
pub open spec fn error_text(e: ScanErrorView) -> Seq<char> {
    match e {
        ScanErrorView::Validation { message } => message,
        ScanErrorView::Spawn { message } => message,
        ScanErrorView::ToolExit { message } => message,
        ScanErrorView::Timeout => "Command timed out"@,
        ScanErrorView::Decode { message } => message,
        ScanErrorView::Persistence { message } => message,
        ScanErrorView::Cancelled => "Scan cancelled"@,
    }
}

impl ScanError {
    /// The human-readable message of the error.
    pub fn message(&self) -> (r: String)
        ensures
            r@ == error_text(self@),
    {
        match self {
            ScanError::Validation { message } => message.clone(),
            ScanError::Spawn { message } => message.clone(),
            ScanError::ToolExit { message } => message.clone(),
            ScanError::Timeout => "Command timed out".to_owned(),
            ScanError::Decode { message } => message.clone(),
            ScanError::Persistence { message } => message.clone(),
            ScanError::Cancelled => "Scan cancelled".to_owned(),
        }
    }
}

/// The view of what a fallible function returned.
pub open spec fn outcome<T: DeepView>(r: Result<T, ScanError>) -> Result<T::V, ScanErrorView> {
    match r {
        Ok(v) => Ok(v.deep_view()),
        Err(e) => Err(e@),
    }
}

/// The text `prefix` followed by `detail`.
pub fn prefixed(prefix: &str, detail: &str) -> (r: String)
    ensures
        r@ == prefix@ + detail@,
{
    let mut s: String = prefix.to_owned();
    s.append(detail);
    s
}

} // verus!
