use std::io;
use std::path::Path;
use video_concat::normalize::Platform;
use video_concat::protocol::{Invocation, ProcessOutput, Reply, Request};
use video_concat::remux::RemuxStep;
use video_concat::{mkvmerge, OutputError, Remux};

fn in_dir(dir: &str, name: &str) -> String {
    Path::new(dir).join(name).display().to_string()
}

fn request(step: RemuxStep) -> Request {
    match step {
        RemuxStep::Perform(request) => request,
        other => panic!("does not ask: {:?}", other),
    }
}

fn result(step: RemuxStep) -> Result<(), OutputError> {
    match step {
        RemuxStep::Done(result) => result,
        other => panic!("is not over: {:?}", other),
    }
}

fn ended(success: bool, stderr: &[u8]) -> Reply {
    Reply::Ran(Ok(ProcessOutput { success, stderr: stderr.to_vec() }))
}

/// A remux that waits for the writing of its option file.
fn remux_at_write(audio_exists: bool, platform: Platform) -> (Remux, Request) {
    let (remux, step) = Remux::begin("/tmp/job", "final.mkv", "mkv", 2, platform);
    assert_eq!(request(step), Request::Resolve { path: in_dir("/tmp/job", "audio.mkv") });
    let (remux, step) = remux.step(Reply::Resolved(Ok("/abs/job/audio.mkv".to_string())));
    assert_eq!(request(step), Request::Probe { path: "/abs/job/audio.mkv".to_string() });
    let (remux, step) = remux.step(Reply::Probed(audio_exists));
    assert_eq!(request(step), Request::Resolve { path: "final.mkv".to_string() });
    let (remux, step) = remux.step(Reply::Resolved(Ok("/abs/out/final.mkv".to_string())));
    (remux, request(step))
}

#[test]
fn remux_without_audio_writes_no_audio_element() {
    let (_, write) = remux_at_write(false, Platform::Other);
    assert_eq!(
        write,
        Request::Write {
            path: in_dir("/tmp/job", "options.json"),
            contents: "[\"-o\", \"/abs/out/final.mkv\", \"[\", \"encoded_chunk_0.mkv\", \
                       \"encoded_chunk_1.mkv\",\"]\"]"
                .to_string(),
        }
    );
}

#[test]
fn remux_with_audio_writes_it_behind_the_output() {
    let (_, write) = remux_at_write(true, Platform::Other);
    assert_eq!(
        write,
        Request::Write {
            path: in_dir("/tmp/job", "options.json"),
            contents: "[\"-o\", \"/abs/out/final.mkv\", \"/abs/job/audio.mkv\", \"[\", \
                       \"encoded_chunk_0.mkv\", \"encoded_chunk_1.mkv\",\"]\"]"
                .to_string(),
        }
    );
}

#[test]
fn remux_writes_the_options_into_the_temporary_directory() {
    let (_, write) = remux_at_write(false, Platform::Other);
    match write {
        Request::Write { path, .. } => {
            assert_ne!(path, "/tmp/job");
            assert_eq!(Path::new(&path).parent(), Some(Path::new("/tmp/job")));
            assert_eq!(Path::new(&path).file_name().unwrap(), "options.json");
        }
        other => panic!("asks for {:?}", other),
    }
}

#[test]
fn remux_normalizes_both_paths_for_windows() {
    let (remux, _) = Remux::begin(r"C:\job", r"C:\out\final.mkv", "mkv", 1, Platform::Windows);
    let (remux, _) = remux.step(Reply::Resolved(Ok(r"\\?\C:\job\audio.mkv".to_string())));
    let (remux, _) = remux.step(Reply::Probed(true));
    let (_, step) = remux.step(Reply::Resolved(Ok(r"\\?\UNC\nas\out\final.mkv".to_string())));
    match request(step) {
        Request::Write { contents, .. } => assert_eq!(
            contents,
            "[\"-o\", \"\\\\\\\\nas\\\\out\\\\final.mkv\", \"C:\\\\job\\\\audio.mkv\", \"[\", \
             \"encoded_chunk_0.mkv\",\"]\"]"
        ),
        other => panic!("asks for {:?}", other),
    }
}

#[test]
fn remux_runs_the_tool_among_the_chunks() {
    let (remux, _) = remux_at_write(false, Platform::Other);
    let (_, step) = remux.step(Reply::Written(Ok(())));
    assert_eq!(
        request(step),
        Request::Run(Invocation {
            program: "mkvmerge".to_string(),
            working_dir: Some(in_dir("/tmp/job", "encoded")),
            args: vec!["@../options.json".to_string()],
            capture_output: true,
        })
    );
}

#[test]
fn remux_succeeds_when_the_tool_does() {
    let (remux, _) = remux_at_write(true, Platform::Other);
    let (remux, _) = remux.step(Reply::Written(Ok(())));
    let (remux, step) = remux.step(ended(true, b"warning: something"));
    assert!(matches!(result(step), Ok(())));
    assert!(!remux.awaits(&ended(true, b"")));
    assert!(!remux.awaits(&Reply::Probed(true)));
}

#[test]
fn remux_reports_what_the_tool_wrote_when_it_fails() {
    let (remux, _) = remux_at_write(false, Platform::Other);
    let (remux, _) = remux.step(Reply::Written(Ok(())));
    let (_, step) = remux.step(ended(false, b"bad input"));
    match result(step) {
        Err(OutputError::MkvMergeFailed(diagnostics)) => assert_eq!(diagnostics, "bad input"),
        other => panic!("ended with {:?}", other),
    }
}

#[test]
fn remux_replaces_what_is_not_text_in_the_diagnostics() {
    let (remux, _) = remux_at_write(false, Platform::Other);
    let (remux, _) = remux.step(Reply::Written(Ok(())));
    let (_, step) = remux.step(ended(false, b"bad \xff input \xc5\xbc"));
    match result(step) {
        Err(OutputError::MkvMergeFailed(diagnostics)) => {
            assert_eq!(diagnostics, "bad \u{fffd} input ż")
        }
        other => panic!("ended with {:?}", other),
    }
}

#[test]
fn remux_ends_when_the_tool_cannot_be_started() {
    let (remux, _) = remux_at_write(false, Platform::Other);
    let (remux, _) = remux.step(Reply::Written(Ok(())));
    let (_, step) =
        remux.step(Reply::Ran(Err(io::Error::new(io::ErrorKind::NotFound, "no mkvmerge"))));
    match result(step) {
        Err(OutputError::Io(source)) => {
            assert_eq!(source.kind(), io::ErrorKind::NotFound);
            assert_eq!(source.to_string(), "no mkvmerge");
        }
        other => panic!("ended with {:?}", other),
    }
}

#[test]
fn remux_ends_when_the_options_cannot_be_written() {
    let (remux, _) = remux_at_write(false, Platform::Other);
    let (remux, step) = remux.step(Reply::Written(Err("read-only file system".to_string())));
    match result(step) {
        Err(OutputError::Fs(message)) => assert_eq!(message, "read-only file system"),
        other => panic!("ended with {:?}", other),
    }
    assert!(!remux.awaits(&Reply::Written(Ok(()))));
}

#[test]
fn remux_ends_when_the_audio_path_cannot_be_resolved() {
    let (remux, _) = Remux::begin("job", "final.mkv", "mkv", 2, Platform::Other);
    let (_, step) = remux.step(Reply::Resolved(Err("no current directory".to_string())));
    match result(step) {
        Err(OutputError::Path(message)) => assert_eq!(message, "no current directory"),
        other => panic!("ended with {:?}", other),
    }
}

#[test]
fn remux_ends_when_the_output_path_cannot_be_resolved() {
    let (remux, _) = Remux::begin("job", "../../final.mkv", "mkv", 2, Platform::Other);
    let (remux, _) = remux.step(Reply::Resolved(Ok("/job/audio.mkv".to_string())));
    let (remux, _) = remux.step(Reply::Probed(true));
    let (_, step) = remux.step(Reply::Resolved(Err(".. consumed root".to_string())));
    match result(step) {
        Err(OutputError::Path(message)) => assert_eq!(message, ".. consumed root"),
        other => panic!("ended with {:?}", other),
    }
}

#[test]
fn remux_waits_for_the_answer_to_its_request() {
    let (remux, step) = Remux::begin("/tmp/job", "/out/final.mkv", "mkv", 1, Platform::Other);
    let asked = request(step);
    let replies = [
        Reply::Resolved(Ok("/tmp/job/audio.mkv".to_string())),
        Reply::Probed(false),
        Reply::Written(Ok(())),
        ended(true, b""),
        Reply::Removed(Ok(())),
    ];
    for reply in &replies {
        assert_eq!(remux.awaits(reply), reply.answers(&asked));
    }
    assert!(remux.awaits(&replies[0]));
    let (remux, step) = remux.step(Reply::Resolved(Ok("/tmp/job/audio.mkv".to_string())));
    let asked = request(step);
    for reply in &replies {
        assert_eq!(remux.awaits(reply), reply.answers(&asked));
    }
    assert!(remux.awaits(&replies[1]));
}

#[test]
fn mkvmerge_resolves_the_audio_path_itself() {
    let (remux, step) = mkvmerge("/tmp/job", "/out/final.mkv", "mkv", 3, Platform::Other);
    assert_eq!(request(step), Request::Probe { path: in_dir("/tmp/job", "audio.mkv") });
    assert!(remux.awaits(&Reply::Probed(true)));
    assert!(!remux.awaits(&Reply::Resolved(Ok(String::new()))));
}

#[test]
fn mkvmerge_resolves_dots_in_the_audio_path() {
    let (_, step) = mkvmerge("/tmp/./job/../work", "/out/final.mkv", "mkv", 3, Platform::Other);
    assert_eq!(request(step), Request::Probe { path: in_dir("/tmp/work", "audio.mkv") });
}

#[test]
fn mkvmerge_fails_on_a_path_above_the_root() {
    let (remux, step) = mkvmerge("/..", "/out/final.mkv", "mkv", 3, Platform::Other);
    match result(step) {
        Err(OutputError::Path(message)) => assert!(message.contains("/.."), "{}", message),
        other => panic!("ended with {:?}", other),
    }
    assert!(!remux.awaits(&Reply::Probed(true)));
}

#[test]
fn advance_resolves_the_output_path_itself() {
    let (remux, _) = mkvmerge("/tmp/job", "/out/./sub/../final.mkv", "mkv", 1, Platform::Other);
    let (remux, step) = remux.advance(Reply::Probed(false));
    assert_eq!(
        request(step),
        Request::Write {
            path: in_dir("/tmp/job", "options.json"),
            contents: "[\"-o\", \"/out/final.mkv\", \"[\", \"encoded_chunk_0.mkv\",\"]\"]"
                .to_string(),
        }
    );
    let (remux, step) = remux.advance(Reply::Written(Ok(())));
    assert!(matches!(request(step), Request::Run(_)));
    let (_, step) = remux.advance(ended(true, b""));
    assert!(matches!(result(step), Ok(())));
}

#[test]
fn advance_fails_on_an_output_above_the_root() {
    let (remux, _) = mkvmerge("/tmp/job", "/../final.mkv", "mkv", 1, Platform::Other);
    let (_, step) = remux.advance(Reply::Probed(true));
    assert!(matches!(result(step), Err(OutputError::Path(_))));
}

#[test]
fn remux_hands_back_a_reply_that_it_does_not_wait_for() {
    let (remux, _) = remux_at_write(true, Platform::Other);
    let (remux, step) = remux.step(Reply::Probed(true));
    assert!(matches!(step, RemuxStep::Unexpected(Reply::Probed(true))));
    let (remux, step) = remux.advance(ended(false, b"too early"));
    match step {
        RemuxStep::Unexpected(Reply::Ran(Ok(output))) => {
            assert_eq!(output, ProcessOutput { success: false, stderr: b"too early".to_vec() })
        }
        other => panic!("{:?}", other),
    }
    assert!(remux.awaits(&Reply::Written(Ok(()))));
    let (_, step) = remux.step(Reply::Written(Ok(())));
    assert!(matches!(request(step), Request::Run(_)));
}

#[test]
fn remux_that_is_over_hands_every_reply_back() {
    let (remux, _) = remux_at_write(false, Platform::Other);
    let (remux, step) = remux.step(Reply::Written(Err("disk full".to_string())));
    assert!(matches!(result(step), Err(OutputError::Fs(_))));
    let (remux, step) = remux.step(Reply::Written(Ok(())));
    assert!(matches!(step, RemuxStep::Unexpected(Reply::Written(Ok(())))));
    let (_, step) = remux.advance(Reply::Resolved(Ok("/x".to_string())));
    assert!(matches!(step, RemuxStep::Unexpected(Reply::Resolved(Ok(_)))));
}
