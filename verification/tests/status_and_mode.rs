use yt_dlp_webui::job_status::JobStatus;
use yt_dlp_webui::submit::{new_job_id, Mode};

/// The stored text of every status is pinned, and reads back as the status.
#[test]
fn job_status_round_trips_as_lowercase_text() {
    let all_status = [
        (JobStatus::Queued, "queued"),
        (JobStatus::Running, "running"),
        (JobStatus::Done, "done"),
        (JobStatus::Failed, "failed"),
        (JobStatus::Expired, "expired"),
    ];
    for (status, text) in all_status {
        assert_eq!(status.as_str(), text);
        assert_eq!(JobStatus::from_text(text), Some(status));
    }
}

#[test]
fn unknown_status_text_is_rejected() {
    assert_eq!(JobStatus::from_text("Queued"), None);
    assert_eq!(JobStatus::from_text("queued "), None);
    assert_eq!(JobStatus::from_text(""), None);
    assert_eq!(JobStatus::from_text("expire"), None);
}

/// The text of every mode is pinned, and reads back as the mode.
#[test]
fn submit_round_trips_as_lowercase_text() {
    let all_modes = [(Mode::Video, "video"), (Mode::Audio, "audio")];
    for (mode, text) in all_modes {
        assert_eq!(mode.as_str(), text);
        assert_eq!(Mode::from_text(text), Some(mode));
    }
}

#[test]
fn unknown_mode_text_is_rejected() {
    assert_eq!(Mode::from_text("Video"), None);
    assert_eq!(Mode::from_text("audi"), None);
    assert_eq!(Mode::from_text("videos"), None);
}

#[test]
fn job_ids_are_hyphenated_v4_uuids() {
    let a = new_job_id();
    let b = new_job_id();
    assert_ne!(a, b);
    for id in [a, b] {
        let chars: Vec<char> = id.chars().collect();
        assert_eq!(chars.len(), 36);
        for (i, c) in chars.iter().enumerate() {
            if i == 8 || i == 13 || i == 18 || i == 23 {
                assert_eq!(*c, '-');
            } else {
                assert!(c.is_ascii_digit() || ('a'..='f').contains(c));
            }
        }
        assert_eq!(chars[14], '4');
        assert!(matches!(chars[19], '8' | '9' | 'a' | 'b'));
        assert!(!id.contains('/'));
    }
}
