use smartclip::process::{
    check_ffmpeg, check_ytdlp, download_clip, downloader, ffmpeg_probe_arguments, transcoder,
    ytdlp_probe_arguments, DownloadResult, ProcessOutcome, ProcessOutput, ToolRun,
};

fn exited(success: bool, stdout: &[u8], stderr: &[u8]) -> ToolRun {
    ToolRun::Ran(ProcessOutcome::Exited(ProcessOutput {
        success,
        stdout: stdout.to_vec(),
        stderr: stderr.to_vec(),
    }))
}

#[test]
fn exit_success_yields_the_exact_output_path() {
    let result = download_clip(&exited(true, b"", b"some warning"), "/clips/abc_1.mp4");
    assert_eq!(
        result,
        Ok(DownloadResult {
            success: true,
            file_path: Some("/clips/abc_1.mp4".to_string()),
            error: None,
        })
    );
}

#[test]
fn exit_failure_yields_the_error_stream() {
    let result = download_clip(&exited(false, b"ignored", b"ERROR: Video unavailable\n"), "x.mp4");
    assert_eq!(
        result,
        Ok(DownloadResult {
            success: false,
            file_path: None,
            error: Some("Download failed: ERROR: Video unavailable\n".to_string()),
        })
    );
}

#[test]
fn exit_failure_with_silent_error_stream_still_has_a_diagnostic() {
    let result = download_clip(&exited(false, b"", b""), "x.mp4").unwrap();
    assert!(!result.success);
    assert_eq!(result.error.as_deref(), Some("Download failed: "));
    assert!(!result.error.unwrap().is_empty());
}

#[test]
fn invalid_bytes_in_the_error_stream_are_replaced() {
    let result = download_clip(&exited(false, b"", b"bad \xff\xfe byte"), "x.mp4").unwrap();
    assert_eq!(result.error.as_deref(), Some("Download failed: bad \u{fffd}\u{fffd} byte"));
}

#[test]
fn launch_failure_is_a_hard_error() {
    let run = ToolRun::Ran(ProcessOutcome::LaunchFailed("Permission denied (os error 13)".to_string()));
    assert_eq!(
        download_clip(&run, "x.mp4"),
        Err("Failed to execute yt-dlp: Permission denied (os error 13)".to_string())
    );
}

#[test]
fn missing_downloader_is_a_hard_error_that_names_the_tool() {
    let run = ToolRun::Unresolved("yt-dlp binary not found in resource directory: /res. Please ensure it's bundled with the app.".to_string());
    assert_eq!(
        download_clip(&run, "x.mp4"),
        Err("yt-dlp not found: yt-dlp binary not found in resource directory: /res. Please ensure it's bundled with the app.".to_string())
    );
    let error = download_clip(&ToolRun::Unresolved(String::new()), "").unwrap_err();
    assert!(error.contains("yt-dlp"));
}

#[test]
fn every_result_carries_exactly_one_payload() {
    let runs = [exited(true, b"", b""), exited(false, b"", b"boom")];
    for run in runs.iter() {
        let result = download_clip(run, "x.mp4").unwrap();
        assert_eq!(result.success, result.file_path.is_some());
        assert_eq!(!result.success, result.error.is_some());
    }
}

#[test]
fn only_a_missing_or_unstartable_downloader_is_a_hard_error() {
    assert!(download_clip(&exited(true, b"", b""), "x.mp4").is_ok());
    assert!(download_clip(&exited(false, b"", b"boom"), "x.mp4").is_ok());
    assert!(download_clip(&ToolRun::Unresolved("gone".to_string()), "x.mp4").is_err());
    let unstartable = ToolRun::Ran(ProcessOutcome::LaunchFailed("no".to_string()));
    assert!(download_clip(&unstartable, "x.mp4").is_err());
}

#[test]
fn a_tool_is_available_only_if_its_probe_exits_with_success() {
    assert!(check_ytdlp(&exited(true, b"2024.01.01\n", b"")));
    assert!(check_ffmpeg(&exited(true, b"ffmpeg version 6.0\n", b"")));
    assert!(!check_ytdlp(&exited(false, b"", b"")));
    assert!(!check_ffmpeg(&exited(false, b"", b"")));
    let unstartable = ToolRun::Ran(ProcessOutcome::LaunchFailed("no".to_string()));
    assert!(!check_ytdlp(&unstartable));
    assert!(!check_ffmpeg(&unstartable));
    let missing = ToolRun::Unresolved("no".to_string());
    assert!(!check_ytdlp(&missing));
    assert!(!check_ffmpeg(&missing));
}

#[test]
fn probes_ask_for_the_version() {
    assert_eq!(downloader(), "yt-dlp");
    assert_eq!(transcoder(), "ffmpeg");
    assert_eq!(ytdlp_probe_arguments(), vec!["--version"]);
    assert_eq!(ffmpeg_probe_arguments(), vec!["-version"]);
}
