use yt_dlp_webui::job_run::{JobRun, RunEvent, RunStep};
use yt_dlp_webui::progress::Progress;
use yt_dlp_webui::run_job::DownloadError;

/// A compact record of a step, for comparing whole runs.
fn label(step: &RunStep) -> String {
    match step {
        RunStep::AcquirePermit => "permit".to_string(),
        RunStep::MarkRunning => "mark running".to_string(),
        RunStep::Publish(p) => format!("publish {:?}", p),
        RunStep::Download => "download".to_string(),
        RunStep::RecordDone { file } => format!("record done {file}"),
        RunStep::RecordFailed { message } => format!("record failed {message}"),
        RunStep::RemoveFile { file } => format!("remove {file}"),
        RunStep::Unregister => "unregister".to_string(),
        RunStep::Finished => "finished".to_string(),
    }
}

/// Drives a job, answering each step as `answer` says, and returns the steps.
fn drive(mut answer: impl FnMut(&RunStep) -> RunEvent) -> Vec<String> {
    let mut run = JobRun::new();
    let mut steps = Vec::new();
    for _ in 0..50 {
        let step = run.pending();
        steps.push(label(&step));
        if let RunStep::Finished = step {
            return steps;
        }
        let outcome = answer(&step);
        run.on(outcome);
    }
    panic!("the job did not finish");
}

fn standard(
    download: Result<String, DownloadError>,
    rows: Option<u64>,
) -> impl FnMut(&RunStep) -> RunEvent {
    let mut download = Some(download);
    move |step| match step {
        RunStep::AcquirePermit => RunEvent::PermitAcquired,
        RunStep::MarkRunning => RunEvent::RunningMarked,
        RunStep::Publish(_) => RunEvent::Published,
        RunStep::Download => RunEvent::Downloaded(download.take().unwrap()),
        RunStep::RecordDone { .. } => RunEvent::DoneRecorded(rows),
        RunStep::RecordFailed { .. } => RunEvent::FailedRecorded,
        RunStep::RemoveFile { .. } => RunEvent::FileRemoved,
        RunStep::Unregister => RunEvent::Unregistered,
        RunStep::Finished => unreachable!(),
    }
}

fn running0() -> String {
    format!("publish {:?}", Progress::Running { percent_bits: 0.0f32.to_bits() })
}

#[test]
fn successful_job_records_then_publishes_then_unregisters() {
    let steps = drive(standard(Ok("/tmp/ytdlp/j/a.mp4".to_string()), Some(1)));
    assert_eq!(
        steps,
        vec![
            "permit".to_string(),
            "mark running".to_string(),
            running0(),
            "download".to_string(),
            "record done /tmp/ytdlp/j/a.mp4".to_string(),
            format!("publish {:?}", Progress::Done { file: "/tmp/ytdlp/j/a.mp4".to_string() }),
            "unregister".to_string(),
            "finished".to_string(),
        ]
    );
}

#[test]
fn unrecorded_success_removes_the_file_before_publishing_failure() {
    for rows in [Some(0), None] {
        let steps = drive(standard(Ok("/tmp/ytdlp/j/a.mp4".to_string()), rows));
        assert_eq!(
            steps[4..].to_vec(),
            vec![
                "record done /tmp/ytdlp/j/a.mp4".to_string(),
                "remove /tmp/ytdlp/j/a.mp4".to_string(),
                format!("publish {:?}", Progress::failed("Internal error")),
                "unregister".to_string(),
                "finished".to_string(),
            ]
        );
    }
}

#[test]
fn failed_download_records_its_message() {
    let steps = drive(standard(Err(DownloadError::NonZeroExit(Some(1))), Some(1)));
    assert_eq!(
        steps[3..].to_vec(),
        vec![
            "download".to_string(),
            "record failed Download failed".to_string(),
            format!("publish {:?}", Progress::failed("Download failed")),
            "unregister".to_string(),
            "finished".to_string(),
        ]
    );
}

#[test]
fn outcomes_of_other_steps_are_ignored() {
    let mut run = JobRun::new();
    run.on(RunEvent::Published);
    run.on(RunEvent::Unregistered);
    assert!(matches!(run.pending(), RunStep::AcquirePermit));
    run.on(RunEvent::PermitAcquired);
    assert!(matches!(run.pending(), RunStep::MarkRunning));
}

#[test]
fn reported_percentages_are_sent_in_order_between_start_and_end() {
    let mut reports = vec![12.5f32, 50.0, 100.0].into_iter();
    let steps = drive(move |step| match step {
        RunStep::AcquirePermit => RunEvent::PermitAcquired,
        RunStep::MarkRunning => RunEvent::RunningMarked,
        RunStep::Publish(_) => RunEvent::Published,
        RunStep::Download => match reports.next() {
            Some(p) => RunEvent::Progressed(p.to_bits()),
            None => RunEvent::Downloaded(Ok("/tmp/ytdlp/j/a.mp4".to_string())),
        },
        RunStep::RecordDone { .. } => RunEvent::DoneRecorded(Some(1)),
        RunStep::RecordFailed { .. } => RunEvent::FailedRecorded,
        RunStep::RemoveFile { .. } => RunEvent::FileRemoved,
        RunStep::Unregister => RunEvent::Unregistered,
        RunStep::Finished => unreachable!(),
    });
    let sends: Vec<String> = steps.iter().filter(|s| s.starts_with("publish")).cloned().collect();
    let running = |p: f32| format!("publish {:?}", Progress::Running { percent_bits: p.to_bits() });
    assert_eq!(
        sends,
        vec![
            running(0.0),
            running(12.5),
            running(50.0),
            running(100.0),
            format!("publish {:?}", Progress::Done { file: "/tmp/ytdlp/j/a.mp4".to_string() }),
        ]
    );
    assert_eq!(steps.last().unwrap(), "finished");
    assert_eq!(steps[steps.len() - 2], "unregister");
}

#[test]
fn nothing_happens_before_the_permit() {
    let mut run = JobRun::new();
    for outcome in [
        RunEvent::RunningMarked,
        RunEvent::Published,
        RunEvent::Progressed(0),
        RunEvent::DoneRecorded(Some(1)),
        RunEvent::FailedRecorded,
        RunEvent::FileRemoved,
        RunEvent::Unregistered,
    ] {
        run.on(outcome);
        assert!(matches!(run.pending(), RunStep::AcquirePermit));
    }
}
