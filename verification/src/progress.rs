//! The progress of a job as clients see it, and the rules for the event
//! stream that reports it.
use vstd::prelude::*;
use vstd::string::*;
use crate::job_status::{JobStatus, status_is_terminal};
use crate::text::opt_text;

verus! {

/// Progress of a job. `Running` carries the percentage as the bit pattern of
/// an IEEE-754 single (what `f32::to_bits` gives), so that the value passes
/// through unchanged; the library never computes with it.
#[derive(Debug, Clone, PartialEq, Eq)]
pub enum Progress {
    Queued,
    Running { percent_bits: u32 },
    Done { file: String },
    Failed { user_facing_error: String },
    Expired,
}

/// A `Progress` with its strings taken as character sequences.
pub enum ProgressView {
    Queued,
    Running { percent_bits: u32 },
    Done { file: Seq<char> },
    Failed { user_facing_error: Seq<char> },
    Expired,
}

impl View for Progress {
    type V = ProgressView;

    open spec fn view(&self) -> ProgressView {
        match self {
            Progress::Queued => ProgressView::Queued,
            Progress::Running { percent_bits } => ProgressView::Running {
                percent_bits: *percent_bits,
            },
            Progress::Done { file } => ProgressView::Done { file: file@ },
            Progress::Failed { user_facing_error } => ProgressView::Failed {
                user_facing_error: user_facing_error@,
            },
            Progress::Expired => ProgressView::Expired,
        }
    }
}

impl ProgressView {
    /// After a terminal progress nothing more will be reported for the job.
    pub open spec fn is_terminal(self) -> bool {
        match self {
            ProgressView::Queued | ProgressView::Running { .. } => false,
            ProgressView::Done { .. } | ProgressView::Failed { .. } | ProgressView::Expired => true,
        }
    }
}

/// The bit pattern of `0.0f32`.
pub open spec fn zero_percent_bits() -> u32 {
    0
}

/// Shown when a job is marked done but no file was recorded for it.
pub open spec fn no_output_file_message() -> Seq<char> {
    "Download finished, but no output file found. Please try again"@
}

/// Shown for a failed job whose row holds no error text.
pub open spec fn generic_failure_message() -> Seq<char> {
    "Download failed"@
}

impl Progress {
    /// Whether nothing more will be reported for the job.
    pub fn is_terminal(&self) -> (r: bool)
        ensures
            r == self@.is_terminal(),
    {
        match self {
            Progress::Queued | Progress::Running { .. } => false,
            Progress::Done { .. } | Progress::Failed { .. } | Progress::Expired => true,
        }
    }

    /// A failure carrying a message for the client.
    pub fn failed(msg: &str) -> (p: Progress)
        ensures
            p@ == (ProgressView::Failed { user_facing_error: msg@ }),
    {
        Progress::Failed { user_facing_error: String::from_str(msg) }
    }

    /// An equal copy.
    pub fn duplicate(&self) -> (p: Progress)
        ensures
            p@ == self@,
    {
        match self {
            Progress::Queued => Progress::Queued,
            Progress::Running { percent_bits } => Progress::Running { percent_bits: *percent_bits },
            Progress::Done { file } => Progress::Done { file: file.clone() },
            Progress::Failed { user_facing_error } => Progress::Failed {
                user_facing_error: user_facing_error.clone(),
            },
            Progress::Expired => Progress::Expired,
        }
    }

    /// Progress reported when a download starts: running at zero percent.
    pub fn started() -> (p: Progress)
        ensures
            p@ == (ProgressView::Running { percent_bits: zero_percent_bits() }),
    {
        Progress::Running { percent_bits: 0 }
    }
}

/// The progress that a job's database row stands for.
pub open spec fn snapshot_of(
    status: JobStatus,
    file: Option<Seq<char>>,
    error: Option<Seq<char>>,
) -> ProgressView {
    match status {
        JobStatus::Queued => ProgressView::Queued,
        JobStatus::Running => ProgressView::Running { percent_bits: zero_percent_bits() },
        JobStatus::Done => match file {
            Some(f) => ProgressView::Done { file: f },
            None => ProgressView::Failed { user_facing_error: no_output_file_message() },
        },
        JobStatus::Failed => match error {
            Some(e) => ProgressView::Failed { user_facing_error: e },
            None => ProgressView::Failed { user_facing_error: generic_failure_message() },
        },
        JobStatus::Expired => ProgressView::Expired,
    }
}

/// Turns a job's row (its status, file and error columns) into the progress
/// a client is shown first.
pub fn snapshot(status: JobStatus, file: Option<String>, error: Option<String>) -> (p: Progress)
    ensures
        p@ == snapshot_of(status, opt_text(file), opt_text(error)),
{
    match status {
        JobStatus::Queued => Progress::Queued,
        JobStatus::Running => Progress::started(),
        JobStatus::Done => match file {
            Some(f) => Progress::Done { file: f },
            None => Progress::failed(
                "Download finished, but no output file found. Please try again",
            ),
        },
        JobStatus::Failed => match error {
            Some(e) => Progress::Failed { user_facing_error: e },
            None => Progress::failed("Download failed"),
        },
        JobStatus::Expired => Progress::Expired,
    }
}

/// What each row is reported as, for every file and error text: a row that
/// records a file and is done is reported done with exactly that file,
/// whatever characters the path holds; a failed row with an error text is
/// reported failed with exactly that text; a queued row as queued, a running
/// row as running at zero percent, an expired row as expired.
pub proof fn lemma_snapshot_reports_the_row(file: Seq<char>, error: Seq<char>, other: Option<Seq<char>>)
    ensures
        snapshot_of(JobStatus::Done, Some(file), other) == (ProgressView::Done { file }),
        snapshot_of(JobStatus::Failed, other, Some(error)) == (ProgressView::Failed {
            user_facing_error: error,
        }),
        snapshot_of(JobStatus::Queued, other, other) == ProgressView::Queued,
        snapshot_of(JobStatus::Running, other, other) == (ProgressView::Running { percent_bits: 0 }),
        snapshot_of(JobStatus::Expired, other, other) == ProgressView::Expired,
        snapshot_of(JobStatus::Done, None, other) == (ProgressView::Failed {
            user_facing_error: "Download finished, but no output file found. Please try again"@,
        }),
        snapshot_of(JobStatus::Failed, other, None) == (ProgressView::Failed {
            user_facing_error: "Download failed"@,
        }),
{
}

/// Exactly done, failed and expired progress is terminal.
pub proof fn lemma_terminal_kinds(p: ProgressView)
    ensures
        p.is_terminal() <==> (p is Done || p is Failed || p is Expired),
{
}

/// A row's snapshot is terminal exactly when the row's status is: a finished
/// row is reported as finished even when a progress channel still exists.
pub proof fn lemma_snapshot_terminal_iff_status_terminal(
    status: JobStatus,
    file: Option<Seq<char>>,
    error: Option<Seq<char>>,
)
    ensures
        snapshot_of(status, file, error).is_terminal() == status_is_terminal(status),
{
}

/// The events a client receives after the snapshot, given the values that
/// the job's progress channel yields: each of them in order, up to and
/// including the first terminal one.
pub open spec fn live_events(live: Seq<ProgressView>) -> Seq<ProgressView>
    decreases live.len(),
{
    if live.len() == 0 {
        Seq::empty()
    } else if live[0].is_terminal() {
        seq![live[0]]
    } else {
        seq![live[0]] + live_events(live.drop_first())
    }
}

/// Every event a client receives: the snapshot first; then, when the
/// snapshot is not terminal and a progress channel existed when the client
/// subscribed, the channel's values up to the first terminal one.
pub open spec fn feed_events(
    snapshot: ProgressView,
    has_channel: bool,
    live: Seq<ProgressView>,
) -> Seq<ProgressView> {
    if snapshot.is_terminal() || !has_channel {
        seq![snapshot]
    } else {
        seq![snapshot] + live_events(live)
    }
}

/// The forwarded channel values are the channel's own values, in order, from
/// the first one on: a prefix of what the channel yielded.
pub proof fn lemma_live_events_are_prefix(live: Seq<ProgressView>)
    ensures
        live_events(live).len() <= live.len(),
        forall|i: int| 0 <= i < live_events(live).len() ==> #[trigger] live_events(live)[i] == live[i],
    decreases live.len(),
{
    if live.len() > 0 && !live[0].is_terminal() {
        lemma_live_events_are_prefix(live.drop_first());
        let rest = live_events(live.drop_first());
        assert forall|i: int| 0 <= i < live_events(live).len() implies #[trigger] live_events(live)[i]
            == live[i] by {
            if i > 0 {
                assert(live_events(live)[i] == rest[i - 1]);
            }
        }
    }
}

/// No forwarded value but the last is terminal: the stream ends right after
/// the first terminal value.
pub proof fn lemma_live_events_terminal_only_last(live: Seq<ProgressView>)
    ensures
        forall|i: int|
            0 <= i < live_events(live).len() - 1 ==> !(#[trigger] live_events(live)[i]).is_terminal(),
    decreases live.len(),
{
    if live.len() > 0 && !live[0].is_terminal() {
        lemma_live_events_terminal_only_last(live.drop_first());
        let rest = live_events(live.drop_first());
        assert forall|i: int| 0 <= i < live_events(live).len() - 1 implies !(
        #[trigger] live_events(live)[i]).is_terminal() by {
            if i > 0 {
                assert(live_events(live)[i] == rest[i - 1]);
            }
        }
    }
}

/// When the channel yields a terminal value, the forwarded values end with
/// one: a client following a live job always learns how it ended.
pub proof fn lemma_live_events_reach_terminal(live: Seq<ProgressView>, k: int)
    requires
        0 <= k < live.len(),
        live[k].is_terminal(),
    ensures
        live_events(live).len() > 0,
        live_events(live).last().is_terminal(),
    decreases live.len(),
{
    if !live[0].is_terminal() {
        assert(live.drop_first()[k - 1] == live[k]);
        lemma_live_events_reach_terminal(live.drop_first(), k - 1);
    }
}

/// The first event of every stream is the row snapshot.
pub proof fn lemma_feed_starts_with_snapshot(
    snapshot: ProgressView,
    has_channel: bool,
    live: Seq<ProgressView>,
)
    ensures
        feed_events(snapshot, has_channel, live).len() >= 1,
        feed_events(snapshot, has_channel, live)[0] == snapshot,
{
}

/// A terminal row wins over a live channel: the client gets the snapshot
/// and the stream ends, whatever the channel would still yield.
pub proof fn lemma_terminal_snapshot_ends_feed(
    snapshot: ProgressView,
    has_channel: bool,
    live: Seq<ProgressView>,
)
    requires
        snapshot.is_terminal(),
    ensures
        feed_events(snapshot, has_channel, live) == seq![snapshot],
{
}

/// Nothing is sent after a terminal event.
pub proof fn lemma_feed_terminal_only_last(
    snapshot: ProgressView,
    has_channel: bool,
    live: Seq<ProgressView>,
)
    ensures
        forall|i: int|
            0 <= i < feed_events(snapshot, has_channel, live).len() - 1 ==> !(
            #[trigger] feed_events(snapshot, has_channel, live)[i]).is_terminal(),
{
    let ev = feed_events(snapshot, has_channel, live);
    if !snapshot.is_terminal() && has_channel {
        lemma_live_events_terminal_only_last(live);
        assert forall|i: int| 0 <= i < ev.len() - 1 implies !(#[trigger] ev[i]).is_terminal() by {
            if i > 0 {
                assert(ev[i] == live_events(live)[i - 1]);
            }
        }
    }
}

/// A client of a job that is still live when it subscribes, whose channel
/// later yields a terminal value, ends with that terminal event and is never
/// left waiting.
pub proof fn lemma_feed_ends_terminal(
    snapshot: ProgressView,
    has_channel: bool,
    live: Seq<ProgressView>,
    k: int,
)
    requires
        has_channel,
        0 <= k < live.len(),
        live[k].is_terminal(),
    ensures
        feed_events(snapshot, has_channel, live).last().is_terminal(),
{
    if !snapshot.is_terminal() {
        lemma_live_events_reach_terminal(live, k);
    }
}

/// Decides, event by event, what a client subscribed to a job is sent.
pub struct EventFeed {
    following: bool,
}

impl EventFeed {
    /// Whether values from the progress channel are still forwarded.
    pub closed spec fn is_following(&self) -> bool {
        self.following
    }

    /// Starts a feed from the row snapshot; the snapshot is the first event.
    pub fn start(snapshot: Progress, has_channel: bool) -> (r: (EventFeed, Progress))
        ensures
            r.1@ == snapshot@,
            r.0.is_following() == (!snapshot@.is_terminal() && has_channel),
    {
        let following = !snapshot.is_terminal() && has_channel;
        (EventFeed { following }, snapshot)
    }

    /// Whether values from the progress channel are still forwarded.
    pub fn is_open(&self) -> (r: bool)
        ensures
            r == self.is_following(),
    {
        self.following
    }

    /// A value arrived on the progress channel: returns the event to send,
    /// if any. The feed closes after forwarding a terminal value.
    pub fn on_live(&mut self, p: Progress) -> (r: Option<Progress>)
        ensures
            old(self).is_following() ==> r is Some && r->0@ == p@ && final(self).is_following()
                == !p@.is_terminal(),
            !old(self).is_following() ==> r is None && !final(self).is_following(),
    {
        if self.following {
            self.following = !p.is_terminal();
            Some(p)
        } else {
            None
        }
    }
}

/// Opens the event stream of a job from its row (status, file and error
/// columns), read after subscribing to its progress channel if one existed.
/// `None` means there is no such job: the request is answered "not found",
/// so a browser stops retrying instead of reconnecting forever.
pub fn subscribe(
    row: Option<(JobStatus, Option<String>, Option<String>)>,
    has_channel: bool,
) -> (r: Option<(EventFeed, Progress)>)
    ensures
        row is None <==> r is None,
        row matches Some(t) ==> r matches Some(fp) && fp.1@ == snapshot_of(
            t.0,
            opt_text(t.1),
            opt_text(t.2),
        ) && fp.0.is_following() == (!fp.1@.is_terminal() && has_channel),
{
    match row {
        None => None,
        Some((status, file, error)) => Some(EventFeed::start(snapshot(status, file, error), has_channel)),
    }
}

/// Runs a feed over a finite list of channel values and returns every event
/// the client receives, in order.
pub fn replay(snapshot: Progress, has_channel: bool, live: Vec<Progress>) -> (events: Vec<Progress>)
    ensures
        events@.map_values(|p: Progress| p@) == feed_events(
            snapshot@,
            has_channel,
            live@.map_values(|p: Progress| p@),
        ),
{
    let ghost snap = snapshot@;
    let ghost all = live@.map_values(|p: Progress| p@);
    let (mut feed, first) = EventFeed::start(snapshot, has_channel);
    let mut events: Vec<Progress> = Vec::new();
    events.push(first);
    let mut rest = live;
    let ghost mut taken: int = 0;
    assert(rest@.map_values(|p: Progress| p@) =~= all.skip(0));
    while rest.len() > 0 && feed.is_open()
        invariant
            0 <= taken <= all.len(),
            rest@.map_values(|p: Progress| p@) =~= all.skip(taken),
            events@.map_values(|p: Progress| p@) + (if feed.is_following() {
                live_events(all.skip(taken))
            } else {
                Seq::empty()
            }) == feed_events(snap, has_channel, all),
        decreases rest.len(),
    {
        let ghost before = events@.map_values(|p: Progress| p@);
        let ghost tail = all.skip(taken);
        let p = rest.remove(0);
        assert(tail[0] == p@);
        assert(tail.drop_first() =~= all.skip(taken + 1));
        let sent = feed.on_live(p);
        match sent {
            Some(e) => {
                events.push(e);
            },
            None => {},
        }
        proof {
            taken = taken + 1;
            assert(events@.map_values(|p: Progress| p@) =~= before.push(tail[0]));
            assert(rest@.map_values(|p: Progress| p@) =~= all.skip(taken));
        }
    }
    proof {
        if feed.is_following() {
            assert(all.skip(taken).len() == 0);
            assert(live_events(all.skip(taken)) =~= Seq::<ProgressView>::empty());
        }
        assert(events@.map_values(|p: Progress| p@) =~= feed_events(snap, has_channel, all));
    }
    events
}

} // verus!
