use yt_dlp_webui::progress::Progress;
use yt_dlp_webui::run_job::{
    check_exit, first_file_in, job_dir, output_file, output_template, percent_text,
    settle_failure, settle_success, ytdlp_args, DirEntryInfo, DownloadError,
};
use yt_dlp_webui::submit::Mode;

#[test]
fn user_messages_hide_internal_detail() {
    assert_eq!(DownloadError::Spawn.user_message(), "Failed to start the download");
    assert_eq!(
        DownloadError::StdoutNotCaptured.user_message(),
        "Internal error starting the download"
    );
    assert_eq!(DownloadError::Wait.user_message(), "Download process failed unexpectedly");
    assert_eq!(DownloadError::NonZeroExit(Some(1)).user_message(), "Download failed");
    assert_eq!(DownloadError::NonZeroExit(None).user_message(), "Download failed");
    assert_eq!(
        DownloadError::NoOutputFile.user_message(),
        "Download completed but produced no file"
    );
}

#[test]
fn output_goes_to_the_job_directory() {
    assert_eq!(job_dir("abc"), "/tmp/ytdlp/abc");
    assert_eq!(output_template("abc"), "/tmp/ytdlp/abc/%(title)s.%(ext)s");
}

#[test]
fn video_arguments() {
    let args = ytdlp_args("j1", "https://example.invalid/v", Mode::Video);
    assert_eq!(
        args,
        vec![
            "-o",
            "/tmp/ytdlp/j1/%(title)s.%(ext)s",
            "--no-playlist",
            "--newline",
            "--progress-template",
            "download:%(progress._percent_str)s",
            "-f",
            "bv*+ba/b",
            "--",
            "https://example.invalid/v",
        ]
    );
}

#[test]
fn audio_arguments_keep_a_dash_url_after_the_separator() {
    let args = ytdlp_args("j2", "--exec=evil", Mode::Audio);
    assert_eq!(
        args,
        vec![
            "-o",
            "/tmp/ytdlp/j2/%(title)s.%(ext)s",
            "--no-playlist",
            "--newline",
            "--progress-template",
            "download:%(progress._percent_str)s",
            "-x",
            "--audio-quality",
            "0",
            "--",
            "--exec=evil",
        ]
    );
}

#[test]
fn percent_lines() {
    assert_eq!(percent_text("  42.0%").as_deref(), Some("42.0"));
    assert_eq!(percent_text("100%\n").as_deref(), Some("100"));
    assert_eq!(percent_text("\t 7.5% \u{3000}").as_deref(), Some("7.5"));
    assert_eq!(percent_text("%").as_deref(), Some(""));
    assert_eq!(percent_text("42.0 %").as_deref(), Some("42.0 "));
    assert_eq!(percent_text("[download] Destination: x.mp4"), None);
    assert_eq!(percent_text("   "), None);
    assert_eq!(percent_text(""), None);
    assert_eq!(percent_text("50%%").as_deref(), Some("50%"));
}

#[test]
fn exit_status() {
    assert_eq!(check_exit(true, Some(0)), Ok(()));
    assert_eq!(check_exit(false, Some(2)), Err(DownloadError::NonZeroExit(Some(2))));
    assert_eq!(check_exit(false, None), Err(DownloadError::NonZeroExit(None)));
}

fn entry(path: &str, is_file: bool, modified: Option<i128>) -> DirEntryInfo {
    DirEntryInfo {
        path_lossy: path.to_string(),
        path: Some(path.to_string()),
        is_file,
        modified,
    }
}

#[test]
fn picks_the_latest_finished_file() {
    let es = vec![
        entry("/tmp/ytdlp/j/a.mp4", true, Some(10)),
        entry("/tmp/ytdlp/j/b.mp4.part", true, Some(50)),
        entry("/tmp/ytdlp/j/c.webm", true, Some(30)),
        entry("/tmp/ytdlp/j/d.ytdl", true, Some(60)),
        entry("/tmp/ytdlp/j/sub", false, Some(70)),
        entry("/tmp/ytdlp/j/e.temp", true, Some(80)),
    ];
    assert_eq!(first_file_in(Some(&es)).as_deref(), Some("/tmp/ytdlp/j/c.webm"));
}

#[test]
fn ties_go_to_the_last_listed() {
    let es = vec![
        entry("/x/a", true, Some(5)),
        entry("/x/b", true, Some(5)),
        entry("/x/c", true, Some(4)),
    ];
    assert_eq!(first_file_in(Some(&es)).as_deref(), Some("/x/b"));
}

#[test]
fn unknown_times_rank_lowest() {
    let es = vec![entry("/x/a", true, Some(-3)), entry("/x/b", true, None)];
    assert_eq!(first_file_in(Some(&es)).as_deref(), Some("/x/a"));
    let es = vec![entry("/x/a", true, None), entry("/x/b", true, None)];
    assert_eq!(first_file_in(Some(&es)).as_deref(), Some("/x/b"));
}

#[test]
fn no_file_found() {
    assert_eq!(first_file_in(None), None);
    let es = vec![entry("/x/a.part", true, Some(1)), entry("/x/d", false, Some(2))];
    assert_eq!(first_file_in(Some(&es)), None);
    assert_eq!(output_file(Some(&es)), Err(DownloadError::NoOutputFile));
    assert_eq!(output_file(None), Err(DownloadError::NoOutputFile));
    let es = vec![DirEntryInfo {
        path_lossy: "/x/\u{fffd}.mp4".to_string(),
        path: None,
        is_file: true,
        modified: Some(1),
    }];
    assert_eq!(output_file(Some(&es)), Err(DownloadError::NoOutputFile));
    let es = vec![entry("/x/ok.mp3", true, Some(1))];
    assert_eq!(output_file(Some(&es)), Ok("/x/ok.mp3".to_string()));
}

#[test]
fn recorded_success_publishes_done() {
    let s = settle_success("/tmp/ytdlp/j/a.mp4".to_string(), Some(1));
    assert_eq!(s.publish, Progress::Done { file: "/tmp/ytdlp/j/a.mp4".to_string() });
    assert_eq!(s.discard, None);
}

#[test]
fn unrecorded_success_discards_the_file() {
    for rows in [Some(0), Some(2), None] {
        let s = settle_success("/tmp/ytdlp/j/a.mp4".to_string(), rows);
        assert_eq!(s.publish, Progress::Failed { user_facing_error: "Internal error".to_string() });
        assert_eq!(s.discard.as_deref(), Some("/tmp/ytdlp/j/a.mp4"));
    }
}

#[test]
fn failures_publish_their_user_message() {
    assert_eq!(
        settle_failure(DownloadError::NoOutputFile),
        Progress::Failed {
            user_facing_error: "Download completed but produced no file".to_string()
        }
    );
    assert_eq!(
        settle_failure(DownloadError::NonZeroExit(Some(1))),
        Progress::Failed { user_facing_error: "Download failed".to_string() }
    );
}
