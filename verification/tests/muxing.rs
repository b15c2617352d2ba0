use video_concat::concat::Backend;
use video_concat::muxer::{ffmpeg_mux, file_list};

#[test]
fn file_list_names_one_segment_per_line() {
    let segments = vec!["/tmp/job/a.mkv".to_string(), "/tmp/job/b.mkv".to_string()];
    assert_eq!(file_list(&segments), "file '/tmp/job/a.mkv'\nfile '/tmp/job/b.mkv'\n");
}

#[test]
fn file_list_keeps_the_order_given() {
    let segments = vec!["z".to_string(), "a".to_string(), "m".to_string(), "a".to_string()];
    assert_eq!(file_list(&segments), "file 'z'\nfile 'a'\nfile 'm'\nfile 'a'\n");
}

#[test]
fn file_list_of_nothing_is_empty() {
    assert_eq!(file_list(&Vec::new()), "");
}

#[test]
fn file_list_writes_paths_as_they_are() {
    let segments = vec!["it's here/ż.mkv".to_string()];
    assert_eq!(file_list(&segments), "file 'it's here/ż.mkv'\n");
}

#[test]
fn muxer_is_run_on_the_list_and_the_source() {
    let invocation =
        ffmpeg_mux("file_list.txt".to_string(), "in.mkv".to_string(), "out.mkv".to_string());
    assert_eq!(invocation.program, "ffmpeg");
    assert_eq!(invocation.working_dir, None);
    assert!(!invocation.capture_output);
    assert_eq!(
        invocation.args,
        vec![
            "-hide_banner",
            "-f",
            "concat",
            "-safe",
            "0",
            "-i",
            "file_list.txt",
            "-i",
            "in.mkv",
            "-map",
            "0:v",
            "-map",
            "1",
            "-c",
            "copy",
            "out.mkv"
        ]
    );
}

#[test]
fn muxer_arguments_keep_each_path_in_its_place() {
    let invocation = ffmpeg_mux("L".to_string(), "I".to_string(), "O".to_string());
    assert_eq!(invocation.args.len(), 16);
    assert_eq!(invocation.args[6], "L");
    assert_eq!(invocation.args[8], "I");
    assert_eq!(invocation.args[15], "O");
}

#[test]
fn ffmpeg_selects_the_muxer() {
    assert_eq!(Backend::select("ffmpeg"), Backend::StreamCopyMux);
}

#[test]
fn every_other_selector_selects_the_remux_tool() {
    for selector in ["mkvmerge", "", "FFMPEG", "ffmpeg ", " ffmpeg", "ffmpe", "ffmpegx", "ivf"] {
        assert_eq!(Backend::select(selector), Backend::ContainerRemux, "{:?}", selector);
    }
}
