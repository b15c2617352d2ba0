//! The inputs of the stream-copy muxer.
//!
//! The muxer reads the segments through its concat demuxer, from a list that
//! names one file per line, and the other streams from the source. It copies
//! every stream as it is: video from the segments, everything from the
//! source.

use crate::protocol::{Invocation, InvocationView};
use vstd::prelude::*;

verus! {

/// The line that names one segment.
pub open spec fn file_line(path: Seq<char>) -> Seq<char> {
    "file '"@ + path + "'\n"@
}

/// The list of segments: one line each, in the order given.
pub open spec fn file_list_text(paths: Seq<Seq<char>>) -> Seq<char>
    decreases paths.len(),
{
    if paths.len() == 0 {
        Seq::empty()
    } else {
        file_list_text(paths.drop_last()) + file_line(paths.last())
    }
}

/// The list of two runs of segments is the list of the first followed by the
/// list of the second: the lines keep the order of the segments.
pub proof fn lemma_file_list_concat(front: Seq<Seq<char>>, back: Seq<Seq<char>>)
    ensures
        file_list_text(front + back) == file_list_text(front) + file_list_text(back),
    decreases back.len(),
{
    if back.len() == 0 {
        assert(front + back =~= front);
        assert(file_list_text(front) + file_list_text(back) =~= file_list_text(front));
    } else {
        lemma_file_list_concat(front, back.drop_last());
        assert((front + back).drop_last() =~= front + back.drop_last());
        assert(file_list_text(front + back) =~= file_list_text(front) + file_list_text(back));
    }
}

/// Writes the list of segments.
pub fn file_list(paths: &Vec<String>) -> (text: String)
    ensures
        text@ == file_list_text(paths.deep_view()),
{
    let mut text = String::new();
    let mut i: usize = 0;
    while i < paths.len()
        invariant
            i <= paths.len(),
            text@ == file_list_text(paths.deep_view().take(i as int)),
        decreases paths.len() - i,
    {
        text.append("file '");
        text.append(paths[i].as_str());
        text.append("'\n");
        proof {
            let next = paths.deep_view().take(i + 1);
            assert(next.drop_last() =~= paths.deep_view().take(i as int));
            assert(next.last() == paths[i as int]@);
        }
        i += 1;
    }
    proof {
        assert(paths.deep_view().take(paths.len() as int) =~= paths.deep_view());
    }
    text
}

/// The arguments of the muxer: the list through the concat demuxer as first
/// input, the source as second, video from the first and every stream from
/// the second, all copied.
pub open spec fn mux_arguments(list: Seq<char>, input: Seq<char>, output: Seq<char>) -> Seq<
    Seq<char>,
> {
    seq![
        "-hide_banner"@,
        "-f"@,
        "concat"@,
        "-safe"@,
        "0"@,
        "-i"@,
        list,
        "-i"@,
        input,
        "-map"@,
        "0:v"@,
        "-map"@,
        "1"@,
        "-c"@,
        "copy"@,
        output,
    ]
}

/// The run of the muxer: in the caller's directory, its output not captured.
pub open spec fn mux_invocation(
    list: Seq<char>,
    input: Seq<char>,
    output: Seq<char>,
) -> InvocationView {
    InvocationView {
        program: "ffmpeg"@,
        working_dir: None,
        args: mux_arguments(list, input, output),
        capture_output: false,
    }
}

/// Describes the run of the muxer that reads the segments named in the file
/// `concat` and the other streams from `input`, and writes `output`.
pub fn ffmpeg_mux(concat: String, input: String, output: String) -> (invocation: Invocation)
    ensures
        invocation@ == mux_invocation(concat@, input@, output@),
{
    let mut args: Vec<String> = Vec::new();
    args.push(String::from_str("-hide_banner"));
    args.push(String::from_str("-f"));
    args.push(String::from_str("concat"));
    args.push(String::from_str("-safe"));
    args.push(String::from_str("0"));
    args.push(String::from_str("-i"));
    args.push(concat);
    args.push(String::from_str("-i"));
    args.push(input);
    args.push(String::from_str("-map"));
    args.push(String::from_str("0:v"));
    args.push(String::from_str("-map"));
    args.push(String::from_str("1"));
    args.push(String::from_str("-c"));
    args.push(String::from_str("copy"));
    args.push(output);
    let invocation = Invocation {
        program: String::from_str("ffmpeg"),
        working_dir: None,
        args,
        capture_output: false,
    };
    assert(invocation.args.deep_view() =~= mux_arguments(concat@, input@, output@));
    invocation
}

} // verus!
