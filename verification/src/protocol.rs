//! What the library asks of its caller, and what the caller answers.
//!
//! The library touches neither files nor processes. A procedure hands out one
//! [`Request`] at a time; the caller carries it out and hands back the
//! [`Reply`] that answers it. Making a path absolute is the one request that
//! the library can answer itself: `step` hands it out like the others, and
//! `advance` answers it on the way to the next.

use vstd::prelude::*;

verus! {

/// An external program to run.
#[derive(Debug, PartialEq, Eq)]
pub struct Invocation {
    /// The name of the program.
    pub program: String,
    /// The directory to run it in; the caller's own if there is none.
    pub working_dir: Option<String>,
    /// Its arguments, in order.
    pub args: Vec<String>,
    /// Whether its output is to be captured, or left to go where the
    /// caller's output goes.
    pub capture_output: bool,
}

/// An [`Invocation`] with its texts as sequences.
pub struct InvocationView {
    pub program: Seq<char>,
    pub working_dir: Option<Seq<char>>,
    pub args: Seq<Seq<char>>,
    pub capture_output: bool,
}

impl View for Invocation {
    type V = InvocationView;

    open spec fn view(&self) -> InvocationView {
        InvocationView {
            program: self.program@,
            working_dir: self.working_dir.deep_view(),
            args: self.args.deep_view(),
            capture_output: self.capture_output,
        }
    }
}

/// One operation for the caller to carry out.
#[derive(Debug, PartialEq, Eq)]
pub enum Request {
    /// Make the path absolute, without asking whether it exists.
    Resolve { path: String },
    /// Find out whether the path exists.
    Probe { path: String },
    /// Create the file, or empty it, and write the contents to it.
    Write { path: String, contents: String },
    /// Run the program and wait for it to end.
    Run(Invocation),
    /// Remove the file.
    Remove { path: String },
}

/// A [`Request`] with its texts as sequences.
pub enum RequestView {
    Resolve { path: Seq<char> },
    Probe { path: Seq<char> },
    Write { path: Seq<char>, contents: Seq<char> },
    Run(InvocationView),
    Remove { path: Seq<char> },
}

impl View for Request {
    type V = RequestView;

    open spec fn view(&self) -> RequestView {
        match *self {
            Request::Resolve { path } => RequestView::Resolve { path: path@ },
            Request::Probe { path } => RequestView::Probe { path: path@ },
            Request::Write { path, contents } => RequestView::Write {
                path: path@,
                contents: contents@,
            },
            Request::Run(invocation) => RequestView::Run(invocation@),
            Request::Remove { path } => RequestView::Remove { path: path@ },
        }
    }
}

/// How a program ended.
#[derive(Debug, PartialEq, Eq)]
pub struct ProcessOutput {
    /// Whether it reported success.
    pub success: bool,
    /// What it wrote to its error stream, if that was captured.
    pub stderr: Vec<u8>,
}

/// A [`ProcessOutput`] with its bytes as a sequence.
pub struct ProcessOutputView {
    pub success: bool,
    pub stderr: Seq<u8>,
}

impl View for ProcessOutput {
    type V = ProcessOutputView;

    open spec fn view(&self) -> ProcessOutputView {
        ProcessOutputView { success: self.success, stderr: self.stderr@ }
    }
}

/// The answer to a [`Request`]. A failure is told by its message, but for a
/// program that could not be started, where the error itself is handed over.
#[derive(Debug)]
pub enum Reply {
    /// To `Resolve`: the absolute path.
    Resolved(Result<String, String>),
    /// To `Probe`: whether the path exists.
    Probed(bool),
    /// To `Write`.
    Written(Result<(), String>),
    /// To `Run`: how the program ended, if it could be started.
    Ran(Result<ProcessOutput, std::io::Error>),
    /// To `Remove`.
    Removed(Result<(), String>),
}

/// A [`Reply`] with its texts as sequences.
pub enum ReplyView {
    Resolved(Result<Seq<char>, Seq<char>>),
    Probed(bool),
    Written(Result<(), Seq<char>>),
    Ran(Result<ProcessOutputView, std::io::Error>),
    Removed(Result<(), Seq<char>>),
}

impl View for Reply {
    type V = ReplyView;

    open spec fn view(&self) -> ReplyView {
        match *self {
            Reply::Resolved(outcome) => ReplyView::Resolved(
                match outcome {
                    Ok(path) => Ok(path@),
                    Err(message) => Err(message@),
                },
            ),
            Reply::Probed(exists) => ReplyView::Probed(exists),
            Reply::Written(outcome) => ReplyView::Written(
                match outcome {
                    Ok(()) => Ok(()),
                    Err(message) => Err(message@),
                },
            ),
            Reply::Ran(outcome) => ReplyView::Ran(
                match outcome {
                    Ok(output) => Ok(output@),
                    Err(source) => Err(source),
                },
            ),
            Reply::Removed(outcome) => ReplyView::Removed(
                match outcome {
                    Ok(()) => Ok(()),
                    Err(message) => Err(message@),
                },
            ),
        }
    }
}

/// Whether `reply` is an answer to `request`.
pub open spec fn answers(reply: ReplyView, request: RequestView) -> bool {
    match request {
        RequestView::Resolve { .. } => reply is Resolved,
        RequestView::Probe { .. } => reply is Probed,
        RequestView::Write { .. } => reply is Written,
        RequestView::Run(_) => reply is Ran,
        RequestView::Remove { .. } => reply is Removed,
    }
}

impl Reply {
    /// Whether this is an answer to `request`.
    pub fn answers(&self, request: &Request) -> (fits: bool)
        ensures
            fits == answers(self@, request@),
    {
        match request {
            Request::Resolve { .. } => matches!(self, Reply::Resolved(_)),
            Request::Probe { .. } => matches!(self, Reply::Probed(_)),
            Request::Write { .. } => matches!(self, Reply::Written(_)),
            Request::Run(_) => matches!(self, Reply::Ran(_)),
            Request::Remove { .. } => matches!(self, Reply::Removed(_)),
        }
    }
}

} // verus!
