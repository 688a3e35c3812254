use yt_dlp_webui::job_status::JobStatus;
use yt_dlp_webui::progress::{replay, snapshot, subscribe, EventFeed, Progress};

fn done(file: &str) -> Progress {
    Progress::Done { file: file.to_string() }
}

fn running(pct: f32) -> Progress {
    Progress::Running { percent_bits: pct.to_bits() }
}

/// What a client receives for a job row, a channel (if any), and the values
/// that channel yields.
fn stream(
    row: Option<(JobStatus, Option<String>, Option<String>)>,
    live: Option<Vec<Progress>>,
) -> Option<Vec<Progress>> {
    let has_channel = live.is_some();
    let (_, first) = subscribe(row.clone(), has_channel)?;
    let (status, file, error) = row.unwrap();
    let events = replay(snapshot(status, file, error), has_channel, live.unwrap_or_default());
    assert_eq!(events[0], first);
    Some(events)
}

#[test]
fn unknown_job_is_not_found() {
    assert!(subscribe(None, false).is_none());
    assert!(subscribe(None, true).is_none());
}

#[test]
fn finished_job_without_channel_replays_and_ends() {
    let row = (JobStatus::Done, Some("/tmp/f.mp4".to_string()), None);
    let events = stream(Some(row), None).unwrap();
    assert_eq!(events, vec![done("/tmp/f.mp4")]);
}

#[test]
fn terminal_row_wins_over_live_channel() {
    let row = (JobStatus::Done, Some("/tmp/f.mp4".to_string()), None);
    let events = stream(Some(row), Some(vec![Progress::Queued, running(10.0)])).unwrap();
    assert_eq!(events, vec![done("/tmp/f.mp4")]);
}

#[test]
fn terminal_event_survives_writer_teardown() {
    // The writer sent `Done` and went away; the channel still hands it out.
    let row = (JobStatus::Running, None, None);
    let events = stream(Some(row), Some(vec![done("/tmp/f.mp4")])).unwrap();
    assert_eq!(events, vec![running(0.0), done("/tmp/f.mp4")]);
}

#[test]
fn live_job_streams_until_terminal() {
    let row = (JobStatus::Queued, None, None);
    let live = vec![
        Progress::Queued,
        running(42.0),
        done("/tmp/f.mp4"),
        running(99.0),
    ];
    let events = stream(Some(row), Some(live)).unwrap();
    assert_eq!(
        events,
        vec![Progress::Queued, Progress::Queued, running(42.0), done("/tmp/f.mp4")]
    );
}

#[test]
fn live_job_whose_channel_closes_early_ends_quietly() {
    let row = (JobStatus::Queued, None, None);
    let events = stream(Some(row), Some(vec![running(5.0)])).unwrap();
    assert_eq!(events, vec![Progress::Queued, running(5.0)]);
}

#[test]
fn failed_job_replays_its_error() {
    let row = (JobStatus::Failed, None, Some("Download failed".to_string()));
    let events = stream(Some(row), None).unwrap();
    assert_eq!(
        events,
        vec![Progress::Failed { user_facing_error: "Download failed".to_string() }]
    );
}

#[test]
fn failed_job_without_error_text_gets_a_generic_message() {
    let p = snapshot(JobStatus::Failed, None, None);
    assert_eq!(p, Progress::Failed { user_facing_error: "Download failed".to_string() });
}

#[test]
fn done_without_file_reports_failure() {
    let row = (JobStatus::Done, None, None);
    let events = stream(Some(row), None).unwrap();
    assert_eq!(
        events,
        vec![Progress::Failed {
            user_facing_error: "Download finished, but no output file found. Please try again"
                .to_string()
        }]
    );
}

#[test]
fn expired_and_queued_rows() {
    assert_eq!(snapshot(JobStatus::Expired, None, None), Progress::Expired);
    assert_eq!(snapshot(JobStatus::Queued, None, None), Progress::Queued);
    assert_eq!(snapshot(JobStatus::Running, None, None), running(0.0));
}

#[test]
fn feed_stops_forwarding_after_terminal() {
    let (mut feed, first) = EventFeed::start(Progress::Queued, true);
    assert_eq!(first, Progress::Queued);
    assert!(feed.is_open());
    assert_eq!(feed.on_live(running(1.0)), Some(running(1.0)));
    assert!(feed.is_open());
    assert_eq!(feed.on_live(Progress::Expired), Some(Progress::Expired));
    assert!(!feed.is_open());
    assert_eq!(feed.on_live(running(2.0)), None);
}

#[test]
fn feed_without_channel_is_closed_from_the_start() {
    let (feed, _) = EventFeed::start(Progress::Queued, false);
    assert!(!feed.is_open());
}

#[test]
fn terminal_progress_values() {
    assert!(!Progress::Queued.is_terminal());
    assert!(!running(3.0).is_terminal());
    assert!(done("x").is_terminal());
    assert!(Progress::failed("x").is_terminal());
    assert!(Progress::Expired.is_terminal());
    assert_eq!(Progress::started(), running(0.0));
}

#[test]
fn snapshot_is_terminal_exactly_for_finished_rows() {
    let rows = [
        (JobStatus::Queued, false),
        (JobStatus::Running, false),
        (JobStatus::Done, true),
        (JobStatus::Failed, true),
        (JobStatus::Expired, true),
    ];
    for (status, terminal) in rows {
        for file in [None, Some("/tmp/f.mp4".to_string())] {
            for error in [None, Some("boom".to_string())] {
                assert_eq!(snapshot(status, file.clone(), error).is_terminal(), terminal);
            }
        }
    }
}
