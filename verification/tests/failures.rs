use video_concat::error::{count_mismatch_message, missing_segment_message};
use video_concat::ConcatenationFailure;

#[test]
fn count_mismatch_names_both_numbers() {
    let failure = ConcatenationFailure::SegmentCountMismatch { expected: 3, found: 2 };
    assert_eq!(failure.message(), "Mismatch in segment count. Expected: 3, Found: 2");
    assert_eq!(
        count_mismatch_message(0, 120),
        "Mismatch in segment count. Expected: 0, Found: 120"
    );
}

#[test]
fn missing_segment_names_the_path() {
    let failure = ConcatenationFailure::SegmentMissing { path: "/tmp/job/b.mkv".to_string() };
    assert_eq!(failure.message(), "Segment file not found: \"/tmp/job/b.mkv\"");
}

#[test]
fn missing_segment_quotes_the_path_as_debug_does() {
    let failure = ConcatenationFailure::SegmentMissing { path: r"C:\job\b.mkv".to_string() };
    assert_eq!(failure.message(), "Segment file not found: \"C:\\\\job\\\\b.mkv\"");
    assert_eq!(missing_segment_message("<shown>"), "Segment file not found: <shown>");
}

#[test]
fn backend_failure_says_no_more_than_that() {
    assert_eq!(
        ConcatenationFailure::ConcatenationFailed.message(),
        "Failed to concatenate videos and copy streams"
    );
}

#[test]
fn file_failures_are_told_by_their_message() {
    assert_eq!(
        ConcatenationFailure::FilesystemWrite("disk full".to_string()).message(),
        "disk full"
    );
    assert_eq!(ConcatenationFailure::Cleanup("no such file".to_string()).message(), "no such file");
}
