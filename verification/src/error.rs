//! What can go wrong.

use crate::decimal::{decimal_digits, decimal_text};
use crate::options::{debug_quote, debug_quoted};
use vstd::prelude::*;

verus! {

/// The I/O error of the standard library, carried as an opaque value.
#[verifier::external_type_specification]
#[verifier::external_body]
pub struct ExIoError(std::io::Error);

/// A failure of a backend.
#[derive(Debug)]
pub enum OutputError {
    /// A path could not be made absolute.
    Path(String),
    /// A file for the tool could not be created or written.
    Fs(String),
    /// The remux tool ran and reported failure; holds what it wrote to its
    /// error stream.
    MkvMergeFailed(String),
    /// The tool could not be started.
    Io(std::io::Error),
}

/// An [`OutputError`] with its texts as sequences.
pub enum OutputErrorView {
    Path(Seq<char>),
    Fs(Seq<char>),
    MkvMergeFailed(Seq<char>),
    Io(std::io::Error),
}

impl View for OutputError {
    type V = OutputErrorView;

    open spec fn view(&self) -> OutputErrorView {
        match *self {
            OutputError::Path(message) => OutputErrorView::Path(message@),
            OutputError::Fs(message) => OutputErrorView::Fs(message@),
            OutputError::MkvMergeFailed(diagnostics) => OutputErrorView::MkvMergeFailed(
                diagnostics@,
            ),
            OutputError::Io(source) => OutputErrorView::Io(source),
        }
    }
}

/// The view of what a backend returns.
pub open spec fn output_result_view(result: Result<(), OutputError>) -> Result<
    (),
    OutputErrorView,
> {
    match result {
        Ok(()) => Ok(()),
        Err(error) => Err(error@),
    }
}

/// Why a concatenation did not produce its output.
#[derive(Debug, PartialEq, Eq)]
pub enum ConcatenationFailure {
    /// There are not as many segments as were announced.
    SegmentCountMismatch { expected: usize, found: usize },
    /// A segment is not on disk; holds its path.
    SegmentMissing { path: String },
    /// The list of segments could not be written.
    FilesystemWrite(String),
    /// The list of segments could not be removed after use.
    Cleanup(String),
    /// The backend failed. Its own error is reported beside this one, not in
    /// it.
    ConcatenationFailed,
}

/// A [`ConcatenationFailure`] with its texts as sequences.
pub enum ConcatenationFailureView {
    SegmentCountMismatch { expected: nat, found: nat },
    SegmentMissing { path: Seq<char> },
    FilesystemWrite(Seq<char>),
    Cleanup(Seq<char>),
    ConcatenationFailed,
}

impl View for ConcatenationFailure {
    type V = ConcatenationFailureView;

    open spec fn view(&self) -> ConcatenationFailureView {
        match *self {
            ConcatenationFailure::SegmentCountMismatch { expected, found } => {
                ConcatenationFailureView::SegmentCountMismatch {
                    expected: expected as nat,
                    found: found as nat,
                }
            },
            ConcatenationFailure::SegmentMissing { path } => {
                ConcatenationFailureView::SegmentMissing { path: path@ }
            },
            ConcatenationFailure::FilesystemWrite(message) => {
                ConcatenationFailureView::FilesystemWrite(message@)
            },
            ConcatenationFailure::Cleanup(message) => ConcatenationFailureView::Cleanup(message@),
            ConcatenationFailure::ConcatenationFailed => {
                ConcatenationFailureView::ConcatenationFailed
            },
        }
    }
}

/// The message for a wrong number of segments: it names both numbers.
pub open spec fn count_mismatch_text(expected: nat, found: nat) -> Seq<char> {
    "Mismatch in segment count. Expected: "@ + decimal_digits(expected) + ", Found: "@
        + decimal_digits(found)
}

/// The message for a missing segment, around its path as it is to be shown.
pub open spec fn missing_segment_text(shown_path: Seq<char>) -> Seq<char> {
    "Segment file not found: "@ + shown_path
}

/// The message that describes a failure. A missing segment is shown by its
/// path, quoted as `Debug` formatting quotes a string.
pub open spec fn failure_text(failure: ConcatenationFailureView) -> Seq<char> {
    match failure {
        ConcatenationFailureView::SegmentCountMismatch { expected, found } => count_mismatch_text(
            expected,
            found,
        ),
        ConcatenationFailureView::SegmentMissing { path } => missing_segment_text(
            debug_quoted(path),
        ),
        ConcatenationFailureView::FilesystemWrite(message) => message,
        ConcatenationFailureView::Cleanup(message) => message,
        ConcatenationFailureView::ConcatenationFailed => {
            "Failed to concatenate videos and copy streams"@
        },
    }
}

/// Writes the message for a wrong number of segments.
pub fn count_mismatch_message(expected: usize, found: usize) -> (message: String)
    ensures
        message@ == count_mismatch_text(expected as nat, found as nat),
{
    let mut message = String::from_str("Mismatch in segment count. Expected: ");
    message.append(decimal_text(expected).as_str());
    message.append(", Found: ");
    message.append(decimal_text(found).as_str());
    message
}

/// Writes the message for a missing segment around its path as it is to be
/// shown.
pub fn missing_segment_message(shown_path: &str) -> (message: String)
    ensures
        message@ == missing_segment_text(shown_path@),
{
    String::from_str("Segment file not found: ").concat(shown_path)
}

impl ConcatenationFailure {
    /// Describes the failure in words.
    pub fn message(&self) -> (message: String)
        ensures
            message@ == failure_text(self@),
    {
        match self {
            ConcatenationFailure::SegmentCountMismatch { expected, found } => {
                count_mismatch_message(*expected, *found)
            },
            ConcatenationFailure::SegmentMissing { path } => {
                missing_segment_message(debug_quote(path.as_str()).as_str())
            },
            ConcatenationFailure::FilesystemWrite(message) => message.clone(),
            ConcatenationFailure::Cleanup(message) => message.clone(),
            ConcatenationFailure::ConcatenationFailed => {
                String::from_str("Failed to concatenate videos and copy streams")
            },
        }
    }
}

} // verus!
