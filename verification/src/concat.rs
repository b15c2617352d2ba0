//! Joining the encoded segments into the final file.
//!
//! A concatenation first holds the segments against what was announced: their
//! number, then, one by one and in order, that each is on disk. Then the
//! backend runs. The stream-copy muxer gets the segments as a list in the
//! file `file_list.txt` of the caller's directory, which is removed once the
//! muxer was run; the remux tool gets them as described in [`crate::remux`].
//! The first failure ends the concatenation; nothing is tried twice.

use crate::error::{
    ConcatenationFailure, ConcatenationFailureView, OutputError, OutputErrorView,
};
use crate::muxer::{ffmpeg_mux, file_list, file_list_text, mux_invocation};
use crate::normalize::{starts_with, Platform};
use crate::paths::resolve;
use crate::protocol::{answers, Reply, ReplyView, Request, RequestView};
use crate::remux::{
    lemma_remux_resolves_once, lemma_remux_waits_for_answer, remux_begin, remux_step, Remux,
    RemuxStep, RemuxStepView, RemuxView,
};
use vstd::prelude::*;

verus! {

/// The tool that joins the segments.
#[derive(Clone, Copy, Debug, PartialEq, Eq)]
pub enum Backend {
    /// The muxer that reads the segments through its concat demuxer and
    /// copies the other streams from the source.
    StreamCopyMux,
    /// The remux tool that joins the chunk files and adds the extracted
    /// audio.
    ContainerRemux,
}

/// The backend that a selector stands for: the muxer for `ffmpeg`, the remux
/// tool for every other text.
pub open spec fn selected_backend(selector: Seq<char>) -> Backend {
    if selector == "ffmpeg"@ {
        Backend::StreamCopyMux
    } else {
        Backend::ContainerRemux
    }
}

impl Backend {
    /// The backend that `selector` stands for.
    pub fn select(selector: &str) -> (backend: Backend)
        ensures
            backend == selected_backend(selector@),
    {
        let name = "ffmpeg";
        if selector.unicode_len() == name.unicode_len() && starts_with(selector, name) {
            assert(selector@ =~= selector@.subrange(0, name@.len() as int));
            Backend::StreamCopyMux
        } else {
            Backend::ContainerRemux
        }
    }
}

/// How a concatenation ended.
#[derive(Debug)]
pub struct Conclusion {
    /// What the caller of the concatenation is told.
    pub result: Result<(), ConcatenationFailure>,
    /// The error of the backend, where that failed: for the log.
    pub cause: Option<OutputError>,
}

/// A [`Conclusion`] with its texts as sequences.
pub struct ConclusionView {
    pub result: Result<(), ConcatenationFailureView>,
    pub cause: Option<OutputErrorView>,
}

impl View for Conclusion {
    type V = ConclusionView;

    open spec fn view(&self) -> ConclusionView {
        ConclusionView {
            result: match self.result {
                Ok(()) => Ok(()),
                Err(failure) => Err(failure@),
            },
            cause: match self.cause {
                Some(error) => Some(error@),
                None => None,
            },
        }
    }
}

/// What a concatenation does next.
#[derive(Debug)]
pub enum ConcatStep {
    /// It asks for this, and waits for the answer.
    Perform(Request),
    /// It is over.
    Done(Conclusion),
    /// It was given a reply that it does not wait for, hands it back, and
    /// waits as before.
    Unexpected(Reply),
}

/// A [`ConcatStep`] with its texts as sequences.
pub enum ConcatStepView {
    Perform(RequestView),
    Done(ConclusionView),
    Unexpected(ReplyView),
}

impl View for ConcatStep {
    type V = ConcatStepView;

    open spec fn view(&self) -> ConcatStepView {
        match *self {
            ConcatStep::Perform(request) => ConcatStepView::Perform(request@),
            ConcatStep::Done(conclusion) => ConcatStepView::Done(conclusion@),
            ConcatStep::Unexpected(reply) => ConcatStepView::Unexpected(reply@),
        }
    }
}

/// What the concatenation waits for.
#[derive(Debug)]
enum Stage {
    CheckingSegment(usize),
    WritingFileList,
    Muxing,
    RemovingFileList,
    Remuxing(Remux),
    Finished,
}

/// What the concatenation waits for.
pub enum ConcatPhase {
    /// Whether the segment with this index exists; those before it do.
    CheckingSegment(nat),
    /// The writing of the list of segments.
    WritingFileList,
    /// The end of the muxer.
    Muxing,
    /// The removal of the list of segments.
    RemovingFileList,
    /// What the remux waits for.
    Remuxing(RemuxView),
    /// Nothing: the concatenation is over.
    Finished,
}

/// A concatenation in progress.
#[derive(Debug)]
pub struct Concatenation {
    segments: Vec<String>,
    original_input: String,
    output_file: String,
    temp_dir: String,
    backend: Backend,
    platform: Platform,
    stage: Stage,
}

/// The state of a concatenation.
pub struct ConcatenationView {
    /// The segments, in the order of playback.
    pub segments: Seq<Seq<char>>,
    /// The source that the other streams are copied from.
    pub original_input: Seq<char>,
    /// The file to produce.
    pub output_file: Seq<char>,
    /// The temporary directory of the encode.
    pub temp_dir: Seq<char>,
    /// The tool that joins the segments.
    pub backend: Backend,
    /// The path convention of the tool.
    pub platform: Platform,
    /// What the concatenation waits for.
    pub phase: ConcatPhase,
}

impl View for Stage {
    type V = ConcatPhase;

    closed spec fn view(&self) -> ConcatPhase {
        match *self {
            Stage::CheckingSegment(index) => ConcatPhase::CheckingSegment(index as nat),
            Stage::WritingFileList => ConcatPhase::WritingFileList,
            Stage::Muxing => ConcatPhase::Muxing,
            Stage::RemovingFileList => ConcatPhase::RemovingFileList,
            Stage::Remuxing(remux) => ConcatPhase::Remuxing(remux@),
            Stage::Finished => ConcatPhase::Finished,
        }
    }
}

impl View for Concatenation {
    type V = ConcatenationView;

    closed spec fn view(&self) -> ConcatenationView {
        ConcatenationView {
            segments: self.segments.deep_view(),
            original_input: self.original_input@,
            output_file: self.output_file@,
            temp_dir: self.temp_dir@,
            backend: self.backend,
            platform: self.platform,
            phase: self.stage@,
        }
    }
}

impl ConcatenationView {
    /// The same concatenation in another phase.
    pub open spec fn at(self, phase: ConcatPhase) -> ConcatenationView {
        ConcatenationView { phase, ..self }
    }

    /// Whether `reply` is of the kind that the concatenation waits for.
    pub open spec fn awaits(self, reply: ReplyView) -> bool {
        match self.phase {
            ConcatPhase::CheckingSegment(_) => reply is Probed,
            ConcatPhase::WritingFileList => reply is Written,
            ConcatPhase::Muxing => reply is Ran,
            ConcatPhase::RemovingFileList => reply is Removed,
            ConcatPhase::Remuxing(remux) => remux.awaits(reply),
            ConcatPhase::Finished => false,
        }
    }

    /// The concatenation over, with this result and, from a backend that
    /// failed, its error.
    pub open spec fn concluded(
        self,
        result: Result<(), ConcatenationFailureView>,
        cause: Option<OutputErrorView>,
    ) -> (ConcatenationView, ConcatStepView) {
        (self.at(ConcatPhase::Finished), ConcatStepView::Done(ConclusionView { result, cause }))
    }

    /// The concatenation as far as the remux has come: waiting with it, or
    /// over with it. The error of a remux that failed is the cause, and the
    /// result says no more than that the concatenation failed. What the
    /// remux hands back, the concatenation hands back.
    pub open spec fn following(self, remux: RemuxView, step: RemuxStepView) -> (
        ConcatenationView,
        ConcatStepView,
    ) {
        match step {
            RemuxStepView::Perform(request) => (
                self.at(ConcatPhase::Remuxing(remux)),
                ConcatStepView::Perform(request),
            ),
            RemuxStepView::Done(Ok(())) => self.concluded(Ok(()), None),
            RemuxStepView::Done(Err(error)) => self.concluded(
                Err(ConcatenationFailureView::ConcatenationFailed),
                Some(error),
            ),
            RemuxStepView::Unexpected(reply) => (
                self.at(ConcatPhase::Remuxing(remux)),
                ConcatStepView::Unexpected(reply),
            ),
        }
    }

    /// The concatenation as the backend begins: the muxer with the writing of
    /// the list of segments, the remux tool as a remux of as many chunks as
    /// there are segments, with the extension `mkv`.
    pub open spec fn entering_backend(self) -> (ConcatenationView, ConcatStepView) {
        match self.backend {
            Backend::StreamCopyMux => (
                self.at(ConcatPhase::WritingFileList),
                ConcatStepView::Perform(
                    RequestView::Write {
                        path: "file_list.txt"@,
                        contents: file_list_text(self.segments),
                    },
                ),
            ),
            Backend::ContainerRemux => {
                let (remux, step) = remux_begin(
                    self.temp_dir,
                    self.output_file,
                    "mkv"@,
                    self.segments.len(),
                    self.platform,
                );
                self.following(remux, step)
            },
        }
    }

    /// The concatenation once the segments before `index` are known to
    /// exist: it asks about the segment `index`, or, past the last, the
    /// backend begins.
    pub open spec fn checking(self, index: nat) -> (ConcatenationView, ConcatStepView) {
        if index < self.segments.len() {
            (
                self.at(ConcatPhase::CheckingSegment(index)),
                ConcatStepView::Perform(RequestView::Probe { path: self.segments[index as int] }),
            )
        } else {
            self.entering_backend()
        }
    }
}

/// A concatenation of the given segments that is yet to begin.
pub open spec fn concat_job(
    segments: Seq<Seq<char>>,
    original_input: Seq<char>,
    output_file: Seq<char>,
    temp_dir: Seq<char>,
    selector: Seq<char>,
    platform: Platform,
) -> ConcatenationView {
    ConcatenationView {
        segments,
        original_input,
        output_file,
        temp_dir,
        backend: selected_backend(selector),
        platform,
        phase: ConcatPhase::Finished,
    }
}

/// How a concatenation begins: with the wrong number of segments it is over
/// at once; else it turns to the first segment.
pub open spec fn concat_begin(
    segments: Seq<Seq<char>>,
    original_input: Seq<char>,
    output_file: Seq<char>,
    temp_dir: Seq<char>,
    expected_segments: nat,
    selector: Seq<char>,
    platform: Platform,
) -> (ConcatenationView, ConcatStepView) {
    let concatenation = concat_job(
        segments,
        original_input,
        output_file,
        temp_dir,
        selector,
        platform,
    );
    if segments.len() != expected_segments {
        concatenation.concluded(
            Err(
                ConcatenationFailureView::SegmentCountMismatch {
                    expected: expected_segments,
                    found: segments.len(),
                },
            ),
            None,
        )
    } else {
        concatenation.checking(0)
    }
}

/// How a concatenation goes on with a reply. One that it does not wait for
/// changes nothing, and is handed back.
pub open spec fn concat_step(concatenation: ConcatenationView, reply: ReplyView) -> (
    ConcatenationView,
    ConcatStepView,
) {
    match (concatenation.phase, reply) {
        (ConcatPhase::CheckingSegment(index), ReplyView::Probed(exists)) => if exists {
            concatenation.checking(index + 1)
        } else {
            concatenation.concluded(
                Err(
                    ConcatenationFailureView::SegmentMissing {
                        path: concatenation.segments[index as int],
                    },
                ),
                None,
            )
        },
        (ConcatPhase::WritingFileList, ReplyView::Written(Ok(()))) => (
            concatenation.at(ConcatPhase::Muxing),
            ConcatStepView::Perform(
                RequestView::Run(
                    mux_invocation(
                        "file_list.txt"@,
                        concatenation.original_input,
                        concatenation.output_file,
                    ),
                ),
            ),
        ),
        (ConcatPhase::WritingFileList, ReplyView::Written(Err(message))) => {
            concatenation.concluded(Err(ConcatenationFailureView::FilesystemWrite(message)), None)
        },
        (ConcatPhase::Muxing, ReplyView::Ran(Ok(_))) => (
            concatenation.at(ConcatPhase::RemovingFileList),
            ConcatStepView::Perform(RequestView::Remove { path: "file_list.txt"@ }),
        ),
        (ConcatPhase::Muxing, ReplyView::Ran(Err(source))) => concatenation.concluded(
            Err(ConcatenationFailureView::ConcatenationFailed),
            Some(OutputErrorView::Io(source)),
        ),
        (ConcatPhase::RemovingFileList, ReplyView::Removed(Ok(()))) => concatenation.concluded(
            Ok(()),
            None,
        ),
        (ConcatPhase::RemovingFileList, ReplyView::Removed(Err(message))) => {
            concatenation.concluded(Err(ConcatenationFailureView::Cleanup(message)), None)
        },
        (ConcatPhase::Remuxing(remux), reply) => {
            let (next, step) = remux_step(remux, reply);
            concatenation.following(next, step)
        },
        _ => (concatenation, ConcatStepView::Unexpected(reply)),
    }
}

/// Whether `after` is what `before` comes to once the library has made the
/// path absolute that `before` asks for, whatever the outcome of that; where
/// `before` asks for no such thing, `after` is `before`.
pub open spec fn concat_resolved(
    before: (ConcatenationView, ConcatStepView),
    after: (ConcatenationView, ConcatStepView),
) -> bool {
    match before.1 {
        ConcatStepView::Perform(RequestView::Resolve { .. }) => exists|
            outcome: Result<Seq<char>, Seq<char>>,
        |
            after == #[trigger] concat_step(before.0, ReplyView::Resolved(outcome)),
        _ => after == before,
    }
}

/// Where a concatenation stands after a run of replies, each the answer to
/// the request before it.
pub open spec fn concat_run(
    start: (ConcatenationView, ConcatStepView),
    replies: Seq<ReplyView>,
) -> (ConcatenationView, ConcatStepView)
    decreases replies.len(),
{
    if replies.len() == 0 {
        start
    } else {
        concat_step(concat_run(start, replies.drop_last()).0, replies.last())
    }
}

/// The replies that say of `count` segments in turn that they exist.
pub open spec fn all_exist(count: nat) -> Seq<ReplyView> {
    Seq::new(count, |i: int| ReplyView::Probed(true))
}

/// With another number of segments than was announced the concatenation is
/// over before it asks for anything: no file is touched and no tool run. The
/// failure names both numbers.
pub proof fn lemma_count_mismatch_ends_at_once(
    segments: Seq<Seq<char>>,
    original_input: Seq<char>,
    output_file: Seq<char>,
    temp_dir: Seq<char>,
    expected_segments: nat,
    selector: Seq<char>,
    platform: Platform,
)
    requires
        segments.len() != expected_segments,
    ensures
        ({
            let (concatenation, step) = concat_begin(
                segments,
                original_input,
                output_file,
                temp_dir,
                expected_segments,
                selector,
                platform,
            );
            &&& concatenation.phase is Finished
            &&& step == ConcatStepView::Done(
                ConclusionView {
                    result: Err(
                        ConcatenationFailureView::SegmentCountMismatch {
                            expected: expected_segments,
                            found: segments.len(),
                        },
                    ),
                    cause: None,
                },
            )
        }),
{
}

/// The segments are asked about one by one, in their order: after `checked`
/// of them were found, the concatenation asks about the next, or, past the
/// last, the backend begins.
pub proof fn lemma_segments_checked_in_order(
    segments: Seq<Seq<char>>,
    original_input: Seq<char>,
    output_file: Seq<char>,
    temp_dir: Seq<char>,
    selector: Seq<char>,
    platform: Platform,
    checked: nat,
)
    requires
        checked <= segments.len(),
    ensures
        ({
            let start = concat_begin(
                segments,
                original_input,
                output_file,
                temp_dir,
                segments.len(),
                selector,
                platform,
            );
            let now = concat_run(start, all_exist(checked));
            &&& now == concat_job(
                segments,
                original_input,
                output_file,
                temp_dir,
                selector,
                platform,
            ).checking(checked)
            &&& checked < segments.len() ==> now.1 == ConcatStepView::Perform(
                RequestView::Probe { path: segments[checked as int] },
            )
        }),
    decreases checked,
{
    let job = concat_job(segments, original_input, output_file, temp_dir, selector, platform);
    let start = concat_begin(
        segments,
        original_input,
        output_file,
        temp_dir,
        segments.len(),
        selector,
        platform,
    );
    if checked == 0 {
        assert(all_exist(0).len() == 0);
    } else {
        let before = (checked - 1) as nat;
        lemma_segments_checked_in_order(
            segments,
            original_input,
            output_file,
            temp_dir,
            selector,
            platform,
            before,
        );
        assert(all_exist(checked).drop_last() =~= all_exist(before));
        assert(all_exist(checked).last() == ReplyView::Probed(true));
        let earlier = concat_run(start, all_exist(before));
        assert(earlier.0 == job.at(ConcatPhase::CheckingSegment(before)));
        assert(earlier.0.checking(checked) == job.checking(checked));
    }
}

/// The first segment that is not on disk ends the concatenation, and the
/// failure names that segment: where the segments before `missing` exist and
/// the segment `missing` does not, the concatenation is over once it is told
/// so, without a look at a later segment and without a call of the backend.
pub proof fn lemma_first_missing_segment_reported(
    segments: Seq<Seq<char>>,
    original_input: Seq<char>,
    output_file: Seq<char>,
    temp_dir: Seq<char>,
    selector: Seq<char>,
    platform: Platform,
    missing: nat,
)
    requires
        missing < segments.len(),
    ensures
        ({
            let start = concat_begin(
                segments,
                original_input,
                output_file,
                temp_dir,
                segments.len(),
                selector,
                platform,
            );
            let end = concat_run(start, all_exist(missing).push(ReplyView::Probed(false)));
            &&& end.0.phase is Finished
            &&& end.1 == ConcatStepView::Done(
                ConclusionView {
                    result: Err(
                        ConcatenationFailureView::SegmentMissing {
                            path: segments[missing as int],
                        },
                    ),
                    cause: None,
                },
            )
        }),
{
    lemma_segments_checked_in_order(
        segments,
        original_input,
        output_file,
        temp_dir,
        selector,
        platform,
        missing,
    );
    let replies = all_exist(missing).push(ReplyView::Probed(false));
    assert(replies.drop_last() =~= all_exist(missing));
    assert(replies.last() == ReplyView::Probed(false));
}

/// A concatenation takes the reply that it waits for and hands every other
/// back. A concatenation that goes on then waits for the answer to what it
/// asks, and for no other; one that is over waits for nothing.
pub proof fn lemma_concat_waits_for_answer(concatenation: ConcatenationView, reply: ReplyView)
    ensures
        ({
            let (next, step) = concat_step(concatenation, reply);
            match step {
                ConcatStepView::Perform(request) => {
                    &&& concatenation.awaits(reply)
                    &&& forall|answer: ReplyView| next.awaits(answer) <==> answers(answer, request)
                },
                ConcatStepView::Done(_) => concatenation.awaits(reply) && next.phase is Finished,
                ConcatStepView::Unexpected(returned) => {
                    &&& !concatenation.awaits(reply)
                    &&& returned == reply
                    &&& next == concatenation
                },
            }
        }),
{
    match concatenation.phase {
        ConcatPhase::Remuxing(remux) => {
            lemma_remux_waits_for_answer(remux, reply);
        },
        _ => {},
    }
}

/// A path is made absolute between two requests to the caller: a
/// concatenation that was given an absolute path does not ask for another at
/// once.
pub proof fn lemma_concat_resolves_once(
    concatenation: ConcatenationView,
    outcome: Result<Seq<char>, Seq<char>>,
)
    ensures
        !(concat_step(concatenation, ReplyView::Resolved(outcome)).1 matches ConcatStepView::Perform(
            RequestView::Resolve { .. },
        )),
{
    match concatenation.phase {
        ConcatPhase::Remuxing(remux) => {
            lemma_remux_resolves_once(remux, outcome);
        },
        _ => {},
    }
}

impl Concatenation {
    /// The segment that is asked about is one of the segments.
    #[verifier::type_invariant]
    spec fn asks_about_a_segment(self) -> bool {
        self.stage matches Stage::CheckingSegment(index) ==> index < self.segments.len()
    }

    /// Whether `reply` is of the kind that the concatenation waits for.
    pub fn awaits(&self, reply: &Reply) -> (waits: bool)
        ensures
            waits == self@.awaits(reply@),
    {
        match &self.stage {
            Stage::CheckingSegment(_) => matches!(reply, Reply::Probed(_)),
            Stage::WritingFileList => matches!(reply, Reply::Written(_)),
            Stage::Muxing => matches!(reply, Reply::Ran(_)),
            Stage::RemovingFileList => matches!(reply, Reply::Removed(_)),
            Stage::Remuxing(remux) => remux.awaits(reply),
            Stage::Finished => false,
        }
    }

    /// The number of segments to join.
    pub fn segment_count(&self) -> (count: usize)
        ensures
            count == self@.segments.len(),
    {
        self.segments.len()
    }

    fn at(self, stage: Stage) -> (next: Concatenation)
        requires
            stage matches Stage::CheckingSegment(index) ==> index < self@.segments.len(),
        ensures
            next@ == self@.at(stage@),
    {
        let Concatenation {
            segments,
            original_input,
            output_file,
            temp_dir,
            backend,
            platform,
            stage: _,
        } = self;
        Concatenation { segments, original_input, output_file, temp_dir, backend, platform, stage }
    }

    fn concluded(
        self,
        result: Result<(), ConcatenationFailure>,
        cause: Option<OutputError>,
    ) -> (next: (Concatenation, ConcatStep))
        ensures
            (next.0@, next.1@) == self@.concluded(
                (Conclusion { result, cause })@.result,
                (Conclusion { result, cause })@.cause,
            ),
    {
        (self.at(Stage::Finished), ConcatStep::Done(Conclusion { result, cause }))
    }

    fn following(self, remux: Remux, step: RemuxStep) -> (next: (Concatenation, ConcatStep))
        ensures
            (next.0@, next.1@) == self@.following(remux@, step@),
    {
        match step {
            RemuxStep::Perform(request) => (
                self.at(Stage::Remuxing(remux)),
                ConcatStep::Perform(request),
            ),
            RemuxStep::Unexpected(reply) => (
                self.at(Stage::Remuxing(remux)),
                ConcatStep::Unexpected(reply),
            ),
            RemuxStep::Done(Ok(())) => self.concluded(Ok(()), None),
            RemuxStep::Done(Err(error)) => self.concluded(
                Err(ConcatenationFailure::ConcatenationFailed),
                Some(error),
            ),
        }
    }

    fn entering_backend(self) -> (next: (Concatenation, ConcatStep))
        requires
            self@.backend == Backend::ContainerRemux ==> self@.segments.len() > 0,
        ensures
            (next.0@, next.1@) == self@.entering_backend(),
    {
        match self.backend {
            Backend::StreamCopyMux => {
                let request = Request::Write {
                    path: String::from_str("file_list.txt"),
                    contents: file_list(&self.segments),
                };
                (self.at(Stage::WritingFileList), ConcatStep::Perform(request))
            },
            Backend::ContainerRemux => {
                let (remux, step) = Remux::begin(
                    self.temp_dir.as_str(),
                    self.output_file.as_str(),
                    "mkv",
                    self.segments.len(),
                    self.platform,
                );
                self.following(remux, step)
            },
        }
    }

    fn checking(self, index: usize) -> (next: (Concatenation, ConcatStep))
        requires
            index <= self@.segments.len(),
            self@.backend == Backend::ContainerRemux ==> self@.segments.len() > 0,
        ensures
            (next.0@, next.1@) == self@.checking(index as nat),
    {
        if index < self.segments.len() {
            let request = Request::Probe { path: self.segments[index].clone() };
            (self.at(Stage::CheckingSegment(index)), ConcatStep::Perform(request))
        } else {
            self.entering_backend()
        }
    }

    /// Goes on with `reply`.
    pub fn step(self, reply: Reply) -> (next: (Concatenation, ConcatStep))
        ensures
            (next.0@, next.1@) == concat_step(self@, reply@),
    {
        proof {
            use_type_invariant(&self);
        }
        let ghost before = self@;
        let Concatenation {
            segments,
            original_input,
            output_file,
            temp_dir,
            backend,
            platform,
            stage,
        } = self;
        let rest = Concatenation {
            segments,
            original_input,
            output_file,
            temp_dir,
            backend,
            platform,
            stage: Stage::Finished,
        };
        assert(rest@ == before.at(ConcatPhase::Finished));
        assert(rest@.segments.len() == rest.segments.len());
        match (stage, reply) {
            (Stage::CheckingSegment(index), Reply::Probed(exists)) => {
                if exists {
                    rest.checking(index + 1)
                } else {
                    let path = rest.segments[index].clone();
                    rest.concluded(Err(ConcatenationFailure::SegmentMissing { path }), None)
                }
            },
            (Stage::WritingFileList, Reply::Written(Ok(()))) => {
                let invocation = ffmpeg_mux(
                    String::from_str("file_list.txt"),
                    rest.original_input.clone(),
                    rest.output_file.clone(),
                );
                (rest.at(Stage::Muxing), ConcatStep::Perform(Request::Run(invocation)))
            },
            (Stage::WritingFileList, Reply::Written(Err(message))) => rest.concluded(
                Err(ConcatenationFailure::FilesystemWrite(message)),
                None,
            ),
            (Stage::Muxing, Reply::Ran(Ok(_))) => {
                let request = Request::Remove { path: String::from_str("file_list.txt") };
                (rest.at(Stage::RemovingFileList), ConcatStep::Perform(request))
            },
            (Stage::Muxing, Reply::Ran(Err(source))) => rest.concluded(
                Err(ConcatenationFailure::ConcatenationFailed),
                Some(OutputError::Io(source)),
            ),
            (Stage::RemovingFileList, Reply::Removed(Ok(()))) => rest.concluded(Ok(()), None),
            (Stage::RemovingFileList, Reply::Removed(Err(message))) => rest.concluded(
                Err(ConcatenationFailure::Cleanup(message)),
                None,
            ),
            (Stage::Remuxing(remux), reply) => {
                let (remux, step) = remux.step(reply);
                rest.following(remux, step)
            },
            (stage, reply) => (rest.at(stage), ConcatStep::Unexpected(reply)),
        }
    }

    /// Makes the path absolute that `step` asks for, if it asks for one, and
    /// goes on with the outcome; hands `step` back as it is if not.
    fn settle(self, step: ConcatStep) -> (next: (Concatenation, ConcatStep))
        ensures
            concat_resolved((self@, step@), (next.0@, next.1@)),
            !(next.1@ matches ConcatStepView::Perform(RequestView::Resolve { .. })),
    {
        let ghost before = (self@, step@);
        match step {
            ConcatStep::Perform(Request::Resolve { path }) => {
                let reply = Reply::Resolved(resolve(path.as_str()));
                let ghost outcome = reply@->Resolved_0;
                let next = self.step(reply);
                proof {
                    lemma_concat_resolves_once(before.0, outcome);
                    assert((next.0@, next.1@) == concat_step(
                        before.0,
                        ReplyView::Resolved(outcome),
                    ));
                }
                next
            },
            step => (self, step),
        }
    }

    /// Goes on with `reply`, up to the next request that is for the caller:
    /// a path that the backend needs absolute is made so on the way.
    pub fn advance(self, reply: Reply) -> (next: (Concatenation, ConcatStep))
        ensures
            concat_resolved(concat_step(self@, reply@), (next.0@, next.1@)),
            !(next.1@ matches ConcatStepView::Perform(RequestView::Resolve { .. })),
    {
        let (concatenation, step) = self.step(reply);
        concatenation.settle(step)
    }
}

/// Begins the concatenation of the segments `segment_paths`, which are to be
/// `expected_segments` in number, into `output_file`; the streams that are
/// not video come from `original_input`. `concat` selects the backend.
///
/// With nothing to join there is no remux: that case is left out.
pub fn concatenate_videos_and_copy_streams(
    segment_paths: Vec<String>,
    original_input: &str,
    output_file: &str,
    temp_dir: &str,
    expected_segments: usize,
    concat: &str,
    platform: Platform,
) -> (start: (Concatenation, ConcatStep))
    requires
        segment_paths.len() == 0 && expected_segments == 0 ==> selected_backend(concat@)
            == Backend::StreamCopyMux,
    ensures
        (start.0@, start.1@) == concat_begin(
            segment_paths.deep_view(),
            original_input@,
            output_file@,
            temp_dir@,
            expected_segments as nat,
            concat@,
            platform,
        ),
{
    let found = segment_paths.len();
    let concatenation = Concatenation {
        segments: segment_paths,
        original_input: String::from_str(original_input),
        output_file: String::from_str(output_file),
        temp_dir: String::from_str(temp_dir),
        backend: Backend::select(concat),
        platform,
        stage: Stage::Finished,
    };
    if found != expected_segments {
        concatenation.concluded(
            Err(ConcatenationFailure::SegmentCountMismatch { expected: expected_segments, found }),
            None,
        )
    } else {
        concatenation.checking(0)
    }
}

} // verus!
