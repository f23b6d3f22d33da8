use smartclip::command::{
    clip_arguments, clip_command, download_sections, metadata_arguments, output_filename,
    ClipOptions, ClipRequest,
};

fn request(subtitles: bool) -> ClipRequest {
    ClipRequest {
        url: "https://example.com/watch?v=abc123".to_string(),
        video_id: "abc123".to_string(),
        start: 75,
        end: 3725,
        output_dir: "/home/user/clips".to_string(),
        format_id: "720p".to_string(),
        options: ClipOptions {
            subtitles,
            summary: false,
            remove_silence: false,
            high_quality: false,
        },
    }
}

#[test]
fn output_file_is_named_after_video_and_time() {
    assert_eq!(output_filename("abc123", 1_700_000_000), "abc123_1700000000.mp4");
    assert_eq!(output_filename("", 0), "_0.mp4");
}

#[test]
fn two_timestamps_give_two_names() {
    assert_ne!(output_filename("abc123", 1_700_000_000), output_filename("abc123", 1_700_000_001));
}

#[test]
fn section_expression_joins_two_clock_times() {
    assert_eq!(download_sections(75, 3725), "*00:01:15-01:02:05");
    assert_eq!(download_sections(0, 0), "*00:00:00-00:00:00");
}

#[test]
fn arguments_without_subtitles() {
    let args = clip_arguments(&request(false), "/home/user/clips/abc123_1700000000.mp4");
    assert_eq!(
        args,
        vec![
            "--format",
            "bestvideo[height<=720]+bestaudio/best[height<=720]",
            "--merge-output-format",
            "mp4",
            "--download-sections",
            "*00:01:15-01:02:05",
            "--force-keyframes-at-cuts",
            "-o",
            "/home/user/clips/abc123_1700000000.mp4",
            "https://example.com/watch?v=abc123",
        ]
    );
}

#[test]
fn arguments_with_subtitles() {
    let args = clip_arguments(&request(true), "/home/user/clips/abc123_1700000000.mp4");
    assert_eq!(
        args,
        vec![
            "--format",
            "bestvideo[height<=720]+bestaudio/best[height<=720]",
            "--merge-output-format",
            "mp4",
            "--download-sections",
            "*00:01:15-01:02:05",
            "--force-keyframes-at-cuts",
            "-o",
            "/home/user/clips/abc123_1700000000.mp4",
            "--write-subs",
            "--sub-lang",
            "en",
            "--embed-subs",
            "https://example.com/watch?v=abc123",
        ]
    );
}

#[test]
fn exactly_one_download_sections_entry() {
    for subtitles in [false, true] {
        let args = clip_arguments(&request(subtitles), "out.mp4");
        let places: Vec<usize> = args
            .iter()
            .enumerate()
            .filter(|(_, a)| a.as_str() == "--download-sections")
            .map(|(i, _)| i)
            .collect();
        assert_eq!(places, vec![4]);
        assert_eq!(args[5], "*00:01:15-01:02:05");
    }
}

#[test]
fn subtitle_flags_follow_the_switch_and_url_stays_last() {
    let without = clip_arguments(&request(false), "out.mp4");
    let with = clip_arguments(&request(true), "out.mp4");
    for flag in ["--write-subs", "--sub-lang", "--embed-subs"] {
        assert!(!without.iter().any(|a| a == flag));
        assert_eq!(with.iter().filter(|a| a.as_str() == flag).count(), 1);
    }
    assert_eq!(without.last().unwrap(), "https://example.com/watch?v=abc123");
    assert_eq!(with.last().unwrap(), "https://example.com/watch?v=abc123");
    assert_eq!(without[..9], with[..9]);
    assert_eq!(with.len(), without.len() + 4);
}

#[test]
fn other_switches_do_not_change_the_arguments() {
    let plain = clip_arguments(&request(false), "out.mp4");
    let mut busy = request(false);
    busy.options.summary = true;
    busy.options.remove_silence = true;
    busy.options.high_quality = true;
    assert_eq!(clip_arguments(&busy, "out.mp4"), plain);
}

#[test]
fn crafted_strings_stay_single_arguments() {
    let mut crafted = request(false);
    crafted.url = "--exec rm -rf / ; https://example.com".to_string();
    crafted.format_id = "720p --exec evil".to_string();
    let args = clip_arguments(&crafted, "dir with spaces/--output.mp4");
    assert_eq!(args.len(), 10);
    assert_eq!(args[1], "best");
    assert_eq!(args[8], "dir with spaces/--output.mp4");
    assert_eq!(args[9], "--exec rm -rf / ; https://example.com");
}

#[test]
fn an_address_that_spells_the_option_is_the_one_exception() {
    let mut crafted = request(false);
    crafted.url = "--download-sections".to_string();
    let args = clip_arguments(&crafted, "out.mp4");
    assert_eq!(args.iter().filter(|a| a.as_str() == "--download-sections").count(), 2);
    assert_eq!(args[4], "--download-sections");
    assert_eq!(args.last().unwrap(), "--download-sections");
}

#[test]
fn a_range_that_is_not_well_formed_is_still_written_out() {
    let mut backwards = request(false);
    backwards.start = 100;
    backwards.end = 10;
    let args = clip_arguments(&backwards, "out.mp4");
    assert_eq!(args[5], "*00:01:40-00:00:10");
}

#[test]
fn metadata_arguments_end_in_the_address() {
    assert_eq!(
        metadata_arguments("https://example.com/v"),
        vec!["--dump-json", "--no-playlist", "https://example.com/v"]
    );
}

#[test]
fn a_range_is_well_formed_if_it_starts_before_it_ends() {
    assert!(request(false).is_well_formed());
    let mut empty = request(false);
    empty.end = empty.start;
    assert!(!empty.is_well_formed());
    empty.end = 0;
    assert!(!empty.is_well_formed());
}

#[test]
fn a_prepared_extraction_names_its_output_file_in_the_arguments() {
    for subtitles in [false, true] {
        let command = clip_command(&request(subtitles), 1_700_000_000);
        assert_eq!(
            std::path::Path::new(&command.output_file),
            std::path::Path::new("/home/user/clips").join("abc123_1700000000.mp4")
        );
        assert_eq!(command.args, clip_arguments(&request(subtitles), &command.output_file));
        assert_eq!(command.args[7], "-o");
        assert_eq!(command.args[8], command.output_file);
        assert!(command.output_file.ends_with("abc123_1700000000.mp4"));
    }
}

#[test]
fn an_output_file_is_never_the_text_of_an_option() {
    for dir in ["", "/", "--", "--download-sections", "--write-subs/"] {
        for id in ["", "abc", "--download-sections", "--embed-subs"] {
            let path = format!("{}{}", dir, output_filename(id, 7));
            for option in ["--download-sections", "--write-subs", "--sub-lang", "--embed-subs"] {
                assert_ne!(path, option);
            }
            assert!(path.ends_with('4'));
        }
    }
}
