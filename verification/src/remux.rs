//! The container-remux backend.
//!
//! The remux tool joins the chunk files of a directory and adds the audio
//! that was extracted before the encode, if any was. The procedure asks, in
//! this order, for the absolute path of `audio.mkv` in the temporary
//! directory, whether that file exists, the absolute path of the output, the
//! writing of `options.json` in the temporary directory, and the run of the
//! tool in the directory `encoded` below it. The first failure ends it.

use crate::error::{output_result_view, OutputError, OutputErrorView};
use crate::normalize::{fix_path, normalized, Platform};
use crate::options::{mkvmerge_options_json, quoted_options_text};
use crate::paths::{join_path, path_join, resolve};
use crate::protocol::{
    answers, Invocation, InvocationView, ProcessOutputView, Reply, ReplyView, Request,
    RequestView,
};
use vstd::prelude::*;

verus! {

/// The text that `String::from_utf8_lossy` makes of `bytes`: their text where
/// they are UTF-8, and the replacement character for what is not.
pub uninterp spec fn utf8_lossy(bytes: Seq<u8>) -> Seq<char>;

/// `String::from_utf8_lossy`. The contract claims that the text is a function
/// of the bytes alone.
#[verifier::external_body]
fn lossy_text(bytes: &Vec<u8>) -> (text: String)
    ensures
        text@ == utf8_lossy(bytes@),
{
    String::from_utf8_lossy(bytes).into_owned()
}

/// What the procedure waits for.
#[derive(Debug)]
enum Phase {
    ResolvingAudio,
    ProbingAudio { path: String },
    ResolvingOutput { audio: Option<String> },
    WritingOptions,
    Running,
    Finished,
}

/// What the procedure waits for.
pub enum RemuxPhase {
    /// The absolute path of the audio file.
    ResolvingAudio,
    /// Whether the audio file, at this absolute path, exists.
    ProbingAudio { path: Seq<char> },
    /// The absolute path of the output; holds the audio file as the tool is
    /// to be given it, if it exists.
    ResolvingOutput { audio: Option<Seq<char>> },
    /// The writing of the option file.
    WritingOptions,
    /// The end of the tool.
    Running,
    /// Nothing: the procedure is over.
    Finished,
}

/// A remux in progress.
#[derive(Debug)]
pub struct Remux {
    temp_dir: String,
    output: String,
    extension: String,
    chunks: usize,
    platform: Platform,
    phase: Phase,
}

/// The state of a remux.
pub struct RemuxView {
    /// The temporary directory of the encode.
    pub temp_dir: Seq<char>,
    /// The file to produce, as the caller named it.
    pub output: Seq<char>,
    /// The extension of the chunk files.
    pub extension: Seq<char>,
    /// The number of chunks.
    pub chunks: nat,
    /// The path convention of the tool.
    pub platform: Platform,
    /// What the procedure waits for.
    pub phase: RemuxPhase,
}

impl View for Phase {
    type V = RemuxPhase;

    closed spec fn view(&self) -> RemuxPhase {
        match *self {
            Phase::ResolvingAudio => RemuxPhase::ResolvingAudio,
            Phase::ProbingAudio { path } => RemuxPhase::ProbingAudio { path: path@ },
            Phase::ResolvingOutput { audio } => RemuxPhase::ResolvingOutput {
                audio: audio.deep_view(),
            },
            Phase::WritingOptions => RemuxPhase::WritingOptions,
            Phase::Running => RemuxPhase::Running,
            Phase::Finished => RemuxPhase::Finished,
        }
    }
}

impl View for Remux {
    type V = RemuxView;

    closed spec fn view(&self) -> RemuxView {
        RemuxView {
            temp_dir: self.temp_dir@,
            output: self.output@,
            extension: self.extension@,
            chunks: self.chunks as nat,
            platform: self.platform,
            phase: self.phase@,
        }
    }
}

/// What a remux does next.
#[derive(Debug)]
pub enum RemuxStep {
    /// It asks for this, and waits for the answer.
    Perform(Request),
    /// It is over, with this result.
    Done(Result<(), OutputError>),
    /// It was given a reply that it does not wait for, hands it back, and
    /// waits as before.
    Unexpected(Reply),
}

/// A [`RemuxStep`] with its texts as sequences.
pub enum RemuxStepView {
    Perform(RequestView),
    Done(Result<(), OutputErrorView>),
    Unexpected(ReplyView),
}

impl View for RemuxStep {
    type V = RemuxStepView;

    open spec fn view(&self) -> RemuxStepView {
        match *self {
            RemuxStep::Perform(request) => RemuxStepView::Perform(request@),
            RemuxStep::Done(result) => RemuxStepView::Done(output_result_view(result)),
            RemuxStep::Unexpected(reply) => RemuxStepView::Unexpected(reply@),
        }
    }
}

/// The run of the remux tool: in the directory of the chunks, on the option
/// file one level up, its output captured.
pub open spec fn remux_invocation(temp_dir: Seq<char>) -> InvocationView {
    InvocationView {
        program: "mkvmerge"@,
        working_dir: Some(path_join(temp_dir, "encoded"@)),
        args: seq!["@../options.json"@],
        capture_output: true,
    }
}

/// The result of a run of the tool that ended: failure holds what the tool
/// wrote to its error stream.
pub open spec fn remux_result(output: ProcessOutputView) -> Result<(), OutputErrorView> {
    if output.success {
        Ok(())
    } else {
        Err(OutputErrorView::MkvMergeFailed(utf8_lossy(output.stderr)))
    }
}

impl RemuxView {
    /// The same remux in another phase.
    pub open spec fn at(self, phase: RemuxPhase) -> RemuxView {
        RemuxView { phase, ..self }
    }

    /// Whether `reply` is of the kind that the remux waits for.
    pub open spec fn awaits(self, reply: ReplyView) -> bool {
        match self.phase {
            RemuxPhase::ResolvingAudio => reply is Resolved,
            RemuxPhase::ProbingAudio { .. } => reply is Probed,
            RemuxPhase::ResolvingOutput { .. } => reply is Resolved,
            RemuxPhase::WritingOptions => reply is Written,
            RemuxPhase::Running => reply is Ran,
            RemuxPhase::Finished => false,
        }
    }
}

/// How a remux begins: by asking for the absolute path of the audio file.
pub open spec fn remux_begin(
    temp_dir: Seq<char>,
    output: Seq<char>,
    extension: Seq<char>,
    chunks: nat,
    platform: Platform,
) -> (RemuxView, RemuxStepView) {
    (
        RemuxView {
            temp_dir,
            output,
            extension,
            chunks,
            platform,
            phase: RemuxPhase::ResolvingAudio,
        },
        RemuxStepView::Perform(RequestView::Resolve { path: path_join(temp_dir, "audio.mkv"@) }),
    )
}

/// How a remux goes on with a reply. One that it does not wait for changes
/// nothing, and is handed back.
pub open spec fn remux_step(remux: RemuxView, reply: ReplyView) -> (RemuxView, RemuxStepView) {
    let failed = |error: OutputErrorView|
        (remux.at(RemuxPhase::Finished), RemuxStepView::Done(Err(error)));
    match (remux.phase, reply) {
        (RemuxPhase::ResolvingAudio, ReplyView::Resolved(Ok(path))) => (
            remux.at(RemuxPhase::ProbingAudio { path }),
            RemuxStepView::Perform(RequestView::Probe { path }),
        ),
        (RemuxPhase::ResolvingAudio, ReplyView::Resolved(Err(message))) => failed(
            OutputErrorView::Path(message),
        ),
        (RemuxPhase::ProbingAudio { path }, ReplyView::Probed(exists)) => (
            remux.at(
                RemuxPhase::ResolvingOutput {
                    audio: if exists {
                        Some(normalized(path, remux.platform))
                    } else {
                        None
                    },
                },
            ),
            RemuxStepView::Perform(RequestView::Resolve { path: remux.output }),
        ),
        (RemuxPhase::ResolvingOutput { audio }, ReplyView::Resolved(Ok(path))) => (
            remux.at(RemuxPhase::WritingOptions),
            RemuxStepView::Perform(
                RequestView::Write {
                    path: path_join(remux.temp_dir, "options.json"@),
                    contents: quoted_options_text(
                        remux.chunks,
                        remux.extension,
                        normalized(path, remux.platform),
                        audio,
                    ),
                },
            ),
        ),
        (RemuxPhase::ResolvingOutput { .. }, ReplyView::Resolved(Err(message))) => failed(
            OutputErrorView::Path(message),
        ),
        (RemuxPhase::WritingOptions, ReplyView::Written(Ok(()))) => (
            remux.at(RemuxPhase::Running),
            RemuxStepView::Perform(RequestView::Run(remux_invocation(remux.temp_dir))),
        ),
        (RemuxPhase::WritingOptions, ReplyView::Written(Err(message))) => failed(
            OutputErrorView::Fs(message),
        ),
        (RemuxPhase::Running, ReplyView::Ran(Ok(output))) => (
            remux.at(RemuxPhase::Finished),
            RemuxStepView::Done(remux_result(output)),
        ),
        (RemuxPhase::Running, ReplyView::Ran(Err(source))) => failed(OutputErrorView::Io(source)),
        _ => (remux, RemuxStepView::Unexpected(reply)),
    }
}

/// Whether `after` is what `before` comes to once the library has made the
/// path absolute that `before` asks for, whatever the outcome of that; where
/// `before` asks for no such thing, `after` is `before`.
pub open spec fn remux_resolved(
    before: (RemuxView, RemuxStepView),
    after: (RemuxView, RemuxStepView),
) -> bool {
    match before.1 {
        RemuxStepView::Perform(RequestView::Resolve { .. }) => exists|
            outcome: Result<Seq<char>, Seq<char>>,
        |
            after == #[trigger] remux_step(before.0, ReplyView::Resolved(outcome)),
        _ => after == before,
    }
}

/// A remux takes the reply that it waits for and hands every other back. A
/// remux that goes on then waits for the answer to what it asks, and for no
/// other; one that is done waits for nothing.
pub proof fn lemma_remux_waits_for_answer(remux: RemuxView, reply: ReplyView)
    ensures
        ({
            let (next, step) = remux_step(remux, reply);
            match step {
                RemuxStepView::Perform(request) => {
                    &&& remux.awaits(reply)
                    &&& forall|answer: ReplyView| next.awaits(answer) <==> answers(answer, request)
                },
                RemuxStepView::Done(_) => remux.awaits(reply) && next.phase is Finished,
                RemuxStepView::Unexpected(returned) => {
                    &&& !remux.awaits(reply)
                    &&& returned == reply
                    &&& next == remux
                },
            }
        }),
{
}

/// A path is made absolute between two requests to the caller: a remux that
/// was given an absolute path does not ask for another at once.
pub proof fn lemma_remux_resolves_once(remux: RemuxView, outcome: Result<Seq<char>, Seq<char>>)
    ensures
        !(remux_step(remux, ReplyView::Resolved(outcome)).1 matches RemuxStepView::Perform(
            RequestView::Resolve { .. },
        )),
{
}

impl Remux {
    /// There is a chunk to join.
    #[verifier::type_invariant]
    spec fn has_chunks(self) -> bool {
        self.chunks > 0
    }

    /// Begins a remux of `num_tasks` chunks with the extension
    /// `encoder_extension` into `output`, in the temporary directory
    /// `temp_dir`.
    pub fn begin(
        temp_dir: &str,
        output: &str,
        encoder_extension: &str,
        num_tasks: usize,
        platform: Platform,
    ) -> (start: (Remux, RemuxStep))
        requires
            num_tasks != 0,
        ensures
            (start.0@, start.1@) == remux_begin(
                temp_dir@,
                output@,
                encoder_extension@,
                num_tasks as nat,
                platform,
            ),
    {
        let audio = join_path(temp_dir, "audio.mkv");
        let remux = Remux {
            temp_dir: String::from_str(temp_dir),
            output: String::from_str(output),
            extension: String::from_str(encoder_extension),
            chunks: num_tasks,
            platform,
            phase: Phase::ResolvingAudio,
        };
        (remux, RemuxStep::Perform(Request::Resolve { path: audio }))
    }

    /// Whether `reply` is of the kind that the remux waits for.
    pub fn awaits(&self, reply: &Reply) -> (waits: bool)
        ensures
            waits == self@.awaits(reply@),
    {
        match self.phase {
            Phase::ResolvingAudio => matches!(reply, Reply::Resolved(_)),
            Phase::ProbingAudio { .. } => matches!(reply, Reply::Probed(_)),
            Phase::ResolvingOutput { .. } => matches!(reply, Reply::Resolved(_)),
            Phase::WritingOptions => matches!(reply, Reply::Written(_)),
            Phase::Running => matches!(reply, Reply::Ran(_)),
            Phase::Finished => false,
        }
    }

    fn at(self, phase: Phase) -> (next: Remux)
        ensures
            next@ == self@.at(phase@),
    {
        proof {
            use_type_invariant(&self);
        }
        let Remux { temp_dir, output, extension, chunks, platform, phase: _ } = self;
        Remux { temp_dir, output, extension, chunks, platform, phase }
    }

    fn failed(self, error: OutputError) -> (next: (Remux, RemuxStep))
        ensures
            next.0@ == self@.at(RemuxPhase::Finished),
            next.1@ == RemuxStepView::Done(Err(error@)),
    {
        (self.at(Phase::Finished), RemuxStep::Done(Err(error)))
    }

    /// Goes on with `reply`.
    pub fn step(self, reply: Reply) -> (next: (Remux, RemuxStep))
        ensures
            (next.0@, next.1@) == remux_step(self@, reply@),
    {
        proof {
            use_type_invariant(&self);
        }
        let ghost before = self@;
        let Remux { temp_dir, output, extension, chunks, platform, phase } = self;
        let remux = Remux { temp_dir, output, extension, chunks, platform, phase: Phase::Finished };
        assert(remux@ == before.at(RemuxPhase::Finished));
        match (phase, reply) {
            (Phase::ResolvingAudio, Reply::Resolved(Ok(path))) => {
                let request = Request::Probe { path: path.clone() };
                (remux.at(Phase::ProbingAudio { path }), RemuxStep::Perform(request))
            },
            (Phase::ResolvingAudio, Reply::Resolved(Err(message))) => remux.failed(
                OutputError::Path(message),
            ),
            (Phase::ProbingAudio { path }, Reply::Probed(exists)) => {
                let audio = if exists {
                    Some(fix_path(path.as_str(), remux.platform))
                } else {
                    None
                };
                let request = Request::Resolve { path: remux.output.clone() };
                (remux.at(Phase::ResolvingOutput { audio }), RemuxStep::Perform(request))
            },
            (Phase::ResolvingOutput { audio }, Reply::Resolved(Ok(path))) => {
                let target = fix_path(path.as_str(), remux.platform);
                let contents = mkvmerge_options_json(
                    remux.chunks,
                    remux.extension.as_str(),
                    target.as_str(),
                    match &audio {
                        Some(file) => Some(file.as_str()),
                        None => None,
                    },
                );
                let request = Request::Write {
                    path: join_path(remux.temp_dir.as_str(), "options.json"),
                    contents,
                };
                (remux.at(Phase::WritingOptions), RemuxStep::Perform(request))
            },
            (Phase::ResolvingOutput { .. }, Reply::Resolved(Err(message))) => remux.failed(
                OutputError::Path(message),
            ),
            (Phase::WritingOptions, Reply::Written(Ok(()))) => {
                let mut args: Vec<String> = Vec::new();
                args.push(String::from_str("@../options.json"));
                let invocation = Invocation {
                    program: String::from_str("mkvmerge"),
                    working_dir: Some(join_path(remux.temp_dir.as_str(), "encoded")),
                    args,
                    capture_output: true,
                };
                assert(invocation.args.deep_view() =~= seq!["@../options.json"@]);
                (remux.at(Phase::Running), RemuxStep::Perform(Request::Run(invocation)))
            },
            (Phase::WritingOptions, Reply::Written(Err(message))) => remux.failed(
                OutputError::Fs(message),
            ),
            (Phase::Running, Reply::Ran(Ok(ended))) => {
                if ended.success {
                    (remux, RemuxStep::Done(Ok(())))
                } else {
                    remux.failed(OutputError::MkvMergeFailed(lossy_text(&ended.stderr)))
                }
            },
            (Phase::Running, Reply::Ran(Err(source))) => remux.failed(OutputError::Io(source)),
            (phase, reply) => (remux.at(phase), RemuxStep::Unexpected(reply)),
        }
    }

    /// Makes the path absolute that `step` asks for, if it asks for one, and
    /// goes on with the outcome; hands `step` back as it is if not.
    fn settle(self, step: RemuxStep) -> (next: (Remux, RemuxStep))
        ensures
            remux_resolved((self@, step@), (next.0@, next.1@)),
            !(next.1@ matches RemuxStepView::Perform(RequestView::Resolve { .. })),
    {
        let ghost before = (self@, step@);
        match step {
            RemuxStep::Perform(Request::Resolve { path }) => {
                let reply = Reply::Resolved(resolve(path.as_str()));
                let ghost outcome = reply@->Resolved_0;
                let next = self.step(reply);
                proof {
                    lemma_remux_resolves_once(before.0, outcome);
                    assert((next.0@, next.1@) == remux_step(before.0, ReplyView::Resolved(outcome)));
                }
                next
            },
            step => (self, step),
        }
    }

    /// Goes on with `reply`, up to the next request that is for the caller:
    /// a path that the remux needs absolute is made so on the way.
    pub fn advance(self, reply: Reply) -> (next: (Remux, RemuxStep))
        ensures
            remux_resolved(remux_step(self@, reply@), (next.0@, next.1@)),
            !(next.1@ matches RemuxStepView::Perform(RequestView::Resolve { .. })),
    {
        let (remux, step) = self.step(reply);
        remux.settle(step)
    }
}

/// Begins a remux of `num_tasks` chunks with the extension
/// `encoder_extension` into `output`, in the temporary directory `temp_dir`,
/// and goes on to the first request that is for the caller.
pub fn mkvmerge(
    temp_dir: &str,
    output: &str,
    encoder_extension: &str,
    num_tasks: usize,
    platform: Platform,
) -> (start: (Remux, RemuxStep))
    requires
        num_tasks != 0,
    ensures
        remux_resolved(
            remux_begin(temp_dir@, output@, encoder_extension@, num_tasks as nat, platform),
            (start.0@, start.1@),
        ),
        !(start.1@ matches RemuxStepView::Perform(RequestView::Resolve { .. })),
{
    let (remux, step) = Remux::begin(temp_dir, output, encoder_extension, num_tasks, platform);
    remux.settle(step)
}

} // verus!
