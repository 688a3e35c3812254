use yt_dlp_webui::reaper::{reaper_period, ReapSweep};

#[test]
fn period_is_at_least_one_second() {
    assert_eq!(reaper_period(0, 0), (1, 0));
    assert_eq!(reaper_period(0, 999_999_999), (1, 0));
    assert_eq!(reaper_period(1, 0), (1, 0));
    assert_eq!(reaper_period(60, 5), (60, 5));
}

#[test]
fn sweep_counts_and_deletes_only_marked_rows() {
    let rows = vec![
        ("a".to_string(), Some("/tmp/a.mp4".to_string())),
        ("b".to_string(), Some("/tmp/b.mp4".to_string())),
        ("c".to_string(), Some("/tmp/c.mp4".to_string())),
    ];
    let mut sweep = ReapSweep::new(rows);
    let outcomes = [true, false, true];
    let mut deleted = Vec::new();
    let mut seen = Vec::new();
    let mut k = 0;
    while let Some(id) = sweep.next_job() {
        seen.push(id);
        if let Some(file) = sweep.record(outcomes[k]) {
            deleted.push(file);
        }
        k += 1;
    }
    assert_eq!(seen, vec!["a", "b", "c"]);
    assert_eq!(deleted, vec!["/tmp/a.mp4", "/tmp/c.mp4"]);
    assert_eq!(sweep.expired(), 2);
}

#[test]
fn empty_sweep_expires_nothing() {
    let sweep = ReapSweep::new(Vec::new());
    assert_eq!(sweep.next_job(), None);
    assert_eq!(sweep.expired(), 0);
}

#[test]
fn done_rows_without_a_file_are_still_expired() {
    let rows = vec![
        ("a".to_string(), None),
        ("b".to_string(), Some("/tmp/b.mp4".to_string())),
        ("c".to_string(), None),
    ];
    let mut sweep = ReapSweep::new(rows);
    let mut deleted = Vec::new();
    while sweep.next_job().is_some() {
        if let Some(file) = sweep.record(true) {
            deleted.push(file);
        }
    }
    assert_eq!(deleted, vec!["/tmp/b.mp4"]);
    assert_eq!(sweep.expired(), 3);
}
