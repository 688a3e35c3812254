//! The course of one job as a state machine: which outside step comes next
//! (acquire a slot, write the database, publish progress, run the download,
//! delete a file, drop the progress channel), and where each step's outcome
//! leads. The steps themselves are I/O and are performed outside the library,
//! which feeds their outcomes back in.
use vstd::prelude::*;
use vstd::string::*;
use crate::progress::{Progress, ProgressView, zero_percent_bits};
use crate::run_job::{
    DownloadError, failure_publish_of, settle_failure, settle_success, success_discard_of,
    success_publish_of, user_message_of,
};

verus! {

/// Where a job stands.
pub enum RunPhase {
    Waiting,
    Marking,
    Announcing,
    Downloading,
    Reporting { percent_bits: u32 },
    RecordingDone { file: String },
    RecordingFailed { error: DownloadError },
    Discarding { file: String, publish: Progress },
    Ending { publish: Progress },
    Closing,
    Finished,
}

/// A `RunPhase` with its strings and progress taken by their views.
pub enum RunPhaseView {
    Waiting,
    Marking,
    Announcing,
    Downloading,
    Reporting { percent_bits: u32 },
    RecordingDone { file: Seq<char> },
    RecordingFailed { error: DownloadError },
    Discarding { file: Seq<char>, publish: ProgressView },
    Ending { publish: ProgressView },
    Closing,
    Finished,
}

impl View for RunPhase {
    type V = RunPhaseView;

    open spec fn view(&self) -> RunPhaseView {
        match self {
            RunPhase::Waiting => RunPhaseView::Waiting,
            RunPhase::Marking => RunPhaseView::Marking,
            RunPhase::Announcing => RunPhaseView::Announcing,
            RunPhase::Downloading => RunPhaseView::Downloading,
            RunPhase::Reporting { percent_bits } => RunPhaseView::Reporting {
                percent_bits: *percent_bits,
            },
            RunPhase::RecordingDone { file } => RunPhaseView::RecordingDone { file: file@ },
            RunPhase::RecordingFailed { error } => RunPhaseView::RecordingFailed { error: *error },
            RunPhase::Discarding { file, publish } => RunPhaseView::Discarding {
                file: file@,
                publish: publish@,
            },
            RunPhase::Ending { publish } => RunPhaseView::Ending { publish: publish@ },
            RunPhase::Closing => RunPhaseView::Closing,
            RunPhase::Finished => RunPhaseView::Finished,
        }
    }
}

/// The next outside step of a job.
pub enum RunStep {
    /// Wait for one of the slots that bound how many downloads run at once.
    AcquirePermit,
    /// Mark the job's row `running`, if it is still `queued`.
    MarkRunning,
    /// Send this progress on the job's channel.
    Publish(Progress),
    /// Run `yt-dlp` (starting it the first time) until it reports a
    /// percentage or ends.
    Download,
    /// Mark the job's row `done` with this file, if it is still unfinished.
    RecordDone { file: String },
    /// Mark the job's row `failed` with this message, if it is still
    /// unfinished.
    RecordFailed { message: String },
    /// Delete this file.
    RemoveFile { file: String },
    /// Remove the job's progress channel from the shared map.
    Unregister,
    /// Nothing is left to do.
    Finished,
}

/// A `RunStep` with its strings and progress taken by their views.
pub enum RunStepView {
    AcquirePermit,
    MarkRunning,
    Publish(ProgressView),
    Download,
    RecordDone { file: Seq<char> },
    RecordFailed { message: Seq<char> },
    RemoveFile { file: Seq<char> },
    Unregister,
    Finished,
}

impl View for RunStep {
    type V = RunStepView;

    open spec fn view(&self) -> RunStepView {
        match self {
            RunStep::AcquirePermit => RunStepView::AcquirePermit,
            RunStep::MarkRunning => RunStepView::MarkRunning,
            RunStep::Publish(p) => RunStepView::Publish(p@),
            RunStep::Download => RunStepView::Download,
            RunStep::RecordDone { file } => RunStepView::RecordDone { file: file@ },
            RunStep::RecordFailed { message } => RunStepView::RecordFailed { message: message@ },
            RunStep::RemoveFile { file } => RunStepView::RemoveFile { file: file@ },
            RunStep::Unregister => RunStepView::Unregister,
            RunStep::Finished => RunStepView::Finished,
        }
    }
}

/// The outcome of an outside step.
pub enum RunEvent {
    PermitAcquired,
    RunningMarked,
    Published,
    /// `yt-dlp` reported this percentage, as the bits of an `f32`.
    Progressed(u32),
    Downloaded(Result<String, DownloadError>),
    /// How many rows the write marked `done`; `None` when the write failed.
    DoneRecorded(Option<u64>),
    FailedRecorded,
    FileRemoved,
    Unregistered,
}

/// A `RunEvent` with its strings taken by their views.
pub enum RunEventView {
    PermitAcquired,
    RunningMarked,
    Published,
    Progressed(u32),
    Downloaded(Result<Seq<char>, DownloadError>),
    DoneRecorded(Option<u64>),
    FailedRecorded,
    FileRemoved,
    Unregistered,
}

impl View for RunEvent {
    type V = RunEventView;

    open spec fn view(&self) -> RunEventView {
        match self {
            RunEvent::PermitAcquired => RunEventView::PermitAcquired,
            RunEvent::RunningMarked => RunEventView::RunningMarked,
            RunEvent::Published => RunEventView::Published,
            RunEvent::Progressed(b) => RunEventView::Progressed(*b),
            RunEvent::Downloaded(r) => RunEventView::Downloaded(
                match r {
                    Ok(f) => Ok(f@),
                    Err(e) => Err(*e),
                },
            ),
            RunEvent::DoneRecorded(rows) => RunEventView::DoneRecorded(*rows),
            RunEvent::FailedRecorded => RunEventView::FailedRecorded,
            RunEvent::FileRemoved => RunEventView::FileRemoved,
            RunEvent::Unregistered => RunEventView::Unregistered,
        }
    }
}

/// The step a job in phase `p` waits on.
pub open spec fn pending_of(p: RunPhaseView) -> RunStepView {
    match p {
        RunPhaseView::Waiting => RunStepView::AcquirePermit,
        RunPhaseView::Marking => RunStepView::MarkRunning,
        RunPhaseView::Announcing => RunStepView::Publish(
            ProgressView::Running { percent_bits: zero_percent_bits() },
        ),
        RunPhaseView::Downloading => RunStepView::Download,
        RunPhaseView::Reporting { percent_bits } => RunStepView::Publish(
            ProgressView::Running { percent_bits },
        ),
        RunPhaseView::RecordingDone { file } => RunStepView::RecordDone { file },
        RunPhaseView::RecordingFailed { error } => RunStepView::RecordFailed {
            message: user_message_of(error),
        },
        RunPhaseView::Discarding { file, .. } => RunStepView::RemoveFile { file },
        RunPhaseView::Ending { publish } => RunStepView::Publish(publish),
        RunPhaseView::Closing => RunStepView::Unregister,
        RunPhaseView::Finished => RunStepView::Finished,
    }
}

/// Where the outcome `e` of the pending step leads from phase `p`. An outcome
/// of any other step changes nothing.
pub open spec fn after(p: RunPhaseView, e: RunEventView) -> RunPhaseView {
    match (p, e) {
        (RunPhaseView::Waiting, RunEventView::PermitAcquired) => RunPhaseView::Marking,
        (RunPhaseView::Marking, RunEventView::RunningMarked) => RunPhaseView::Announcing,
        (RunPhaseView::Announcing, RunEventView::Published) => RunPhaseView::Downloading,
        (RunPhaseView::Downloading, RunEventView::Progressed(percent_bits)) => RunPhaseView::Reporting {
            percent_bits,
        },
        (RunPhaseView::Reporting { .. }, RunEventView::Published) => RunPhaseView::Downloading,
        (RunPhaseView::Downloading, RunEventView::Downloaded(Ok(file))) => RunPhaseView::RecordingDone {
            file,
        },
        (RunPhaseView::Downloading, RunEventView::Downloaded(Err(error))) => RunPhaseView::RecordingFailed {
            error,
        },
        (RunPhaseView::RecordingDone { file }, RunEventView::DoneRecorded(rows)) => match success_discard_of(
            file,
            rows,
        ) {
            Some(stale) => RunPhaseView::Discarding {
                file: stale,
                publish: success_publish_of(file, rows),
            },
            None => RunPhaseView::Ending { publish: success_publish_of(file, rows) },
        },
        (RunPhaseView::RecordingFailed { error }, RunEventView::FailedRecorded) => RunPhaseView::Ending {
            publish: failure_publish_of(error),
        },
        (RunPhaseView::Discarding { publish, .. }, RunEventView::FileRemoved) => RunPhaseView::Ending {
            publish,
        },
        (RunPhaseView::Ending { .. }, RunEventView::Published) => RunPhaseView::Closing,
        (RunPhaseView::Closing, RunEventView::Unregistered) => RunPhaseView::Finished,
        _ => p,
    }
}

/// The phase of a job after the outcomes `evs`, from its start.
pub open spec fn run_phase(evs: Seq<RunEventView>) -> RunPhaseView
    decreases evs.len(),
{
    if evs.len() == 0 {
        RunPhaseView::Waiting
    } else {
        after(run_phase(evs.drop_last()), evs.last())
    }
}

/// The phase after the first `n` outcomes.
pub open spec fn phase_after(evs: Seq<RunEventView>, n: int) -> RunPhaseView {
    run_phase(evs.take(n))
}

/// The `i`-th outcome records the job's end in its row.
pub open spec fn records_at(evs: Seq<RunEventView>, i: int) -> bool {
    ||| (phase_after(evs, i) is RecordingDone && evs[i] is DoneRecorded)
    ||| (phase_after(evs, i) is RecordingFailed && evs[i] is FailedRecorded)
}

/// The `i`-th outcome is that of a progress send.
pub open spec fn sends_at(evs: Seq<RunEventView>, i: int) -> bool {
    pending_of(phase_after(evs, i)) is Publish && evs[i] is Published
}

/// The `i`-th outcome is that of sending a terminal progress.
pub open spec fn sends_terminal_at(evs: Seq<RunEventView>, i: int) -> bool {
    &&& sends_at(evs, i)
    &&& pending_of(phase_after(evs, i))->Publish_0.is_terminal()
}

/// The `i`-th outcome is that of removing the job's channel.
pub open spec fn unregisters_at(evs: Seq<RunEventView>, i: int) -> bool {
    phase_after(evs, i) is Closing && evs[i] is Unregistered
}

/// One more outcome moves the phase by `after`.
proof fn lemma_run_step(evs: Seq<RunEventView>, k: int)
    requires
        0 <= k < evs.len(),
    ensures
        phase_after(evs, k + 1) == after(phase_after(evs, k), evs[k]),
{
    assert(evs.take(k + 1).drop_last() =~= evs.take(k));
    assert(evs.take(k + 1).last() == evs[k]);
}

/// A progress waiting to be sent at the end of a job is terminal.
pub open spec fn end_publish_terminal(p: RunPhaseView) -> bool {
    match p {
        RunPhaseView::Discarding { publish, .. } => publish.is_terminal(),
        RunPhaseView::Ending { publish } => publish.is_terminal(),
        _ => true,
    }
}

/// Every phase a job reaches holds only terminal progress for its end.
pub proof fn lemma_end_publish_terminal(evs: Seq<RunEventView>, n: int)
    requires
        0 <= n <= evs.len(),
    ensures
        end_publish_terminal(phase_after(evs, n)),
    decreases n,
{
    if n == 0 {
        assert(evs.take(0) =~= Seq::<RunEventView>::empty());
    } else {
        lemma_end_publish_terminal(evs, n - 1);
        lemma_run_step(evs, n - 1);
    }
}

/// Every progress send of a job is the start (running at zero percent), a
/// percentage `yt-dlp` reported (running), or the end (terminal).
pub proof fn lemma_sends_are_start_report_or_end(evs: Seq<RunEventView>, k: int)
    requires
        0 <= k < evs.len(),
        sends_at(evs, k),
    ensures
        (phase_after(evs, k) is Announcing && pending_of(phase_after(evs, k)) == RunStepView::Publish(
            ProgressView::Running { percent_bits: zero_percent_bits() },
        )) || (phase_after(evs, k) is Reporting && pending_of(phase_after(evs, k)) == RunStepView::Publish(
            ProgressView::Running { percent_bits: phase_after(evs, k)->Reporting_percent_bits },
        )) || (phase_after(evs, k) is Ending && sends_terminal_at(evs, k)),
{
    lemma_end_publish_terminal(evs, k);
}

/// Witnesses, for the first `n` outcomes, of where the job's end was
/// recorded (`.0`), where its terminal progress was sent (`.1`) and where its
/// channel was removed (`.2`), as far as the job has come.
proof fn lemma_end_witnesses(evs: Seq<RunEventView>, n: int) -> (w: (int, int, int))
    requires
        0 <= n <= evs.len(),
    ensures
        (phase_after(evs, n) is Discarding || phase_after(evs, n) is Ending || phase_after(
            evs,
            n,
        ) is Closing || phase_after(evs, n) is Finished) ==> 0 <= w.0 < n && records_at(evs, w.0),
        (phase_after(evs, n) is Closing || phase_after(evs, n) is Finished) ==> w.0 < w.1 < n
            && sends_terminal_at(evs, w.1),
        phase_after(evs, n) is Finished ==> w.1 < w.2 < n && unregisters_at(evs, w.2),
    decreases n,
{
    if n == 0 {
        assert(evs.take(0) =~= Seq::<RunEventView>::empty());
        (0, 0, 0)
    } else {
        let w = lemma_end_witnesses(evs, n - 1);
        lemma_run_step(evs, n - 1);
        lemma_end_publish_terminal(evs, n - 1);
        let prev = phase_after(evs, n - 1);
        if prev is Ending && evs[n - 1] is Published {
            (w.0, n - 1, w.2)
        } else if prev is Closing && evs[n - 1] is Unregistered {
            (w.0, w.1, n - 1)
        } else if (prev is RecordingDone && evs[n - 1] is DoneRecorded) || (prev is RecordingFailed
            && evs[n - 1] is FailedRecorded) {
            (n - 1, w.1, w.2)
        } else {
            w
        }
    }
}

/// Once the channel is being removed, or has been, the job stays so.
proof fn lemma_stays_closed(evs: Seq<RunEventView>, a: int, b: int)
    requires
        0 <= a <= b <= evs.len(),
        phase_after(evs, a) is Closing || phase_after(evs, a) is Finished,
    ensures
        phase_after(evs, b) is Closing || phase_after(evs, b) is Finished,
    decreases b - a,
{
    if b > a {
        lemma_stays_closed(evs, a, b - 1);
        lemma_run_step(evs, b - 1);
    }
}

/// A job's progress channel is removed only after the job's end was recorded
/// in its row and a terminal progress was sent on the channel, in that
/// order. So a client that asks about the job finds a live channel, or else
/// a row that already says how the job ended.
pub proof fn lemma_channel_removed_after_end_recorded_and_sent(evs: Seq<RunEventView>, k: int)
    requires
        0 <= k < evs.len(),
        unregisters_at(evs, k),
    ensures
        exists|i: int, j: int|
            0 <= i < j < k && #[trigger] records_at(evs, i) && #[trigger] sends_terminal_at(evs, j),
{
    let w = lemma_end_witnesses(evs, k);
    assert(records_at(evs, w.0) && sends_terminal_at(evs, w.1));
}

/// After a terminal progress is sent, nothing more is sent on the channel.
pub proof fn lemma_terminal_send_is_last(evs: Seq<RunEventView>, j: int, k: int)
    requires
        0 <= j < k < evs.len(),
        sends_terminal_at(evs, j),
    ensures
        !sends_at(evs, k),
{
    lemma_end_publish_terminal(evs, j);
    lemma_run_step(evs, j);
    lemma_stays_closed(evs, j + 1, k);
}

/// A finished job has recorded its end, then sent exactly one terminal
/// progress, then removed its channel; the terminal progress is the last
/// one it sent.
pub proof fn lemma_finished_job(evs: Seq<RunEventView>)
    requires
        run_phase(evs) is Finished,
    ensures
        exists|i: int, j: int, k: int|
            0 <= i < j < k < evs.len() && #[trigger] records_at(evs, i) && #[trigger] sends_terminal_at(
                evs,
                j,
            ) && #[trigger] unregisters_at(evs, k) && (forall|m: int|
                0 <= m < evs.len() && #[trigger] sends_at(evs, m) ==> m <= j) && (forall|m: int|
                0 <= m < evs.len() && sends_terminal_at(evs, m) ==> m == j),
{
    assert(evs.take(evs.len() as int) =~= evs);
    let w = lemma_end_witnesses(evs, evs.len() as int);
    let (i, j, k) = w;
    assert forall|m: int| 0 <= m < evs.len() && #[trigger] sends_at(evs, m) implies m <= j by {
        if m > j {
            lemma_terminal_send_is_last(evs, j, m);
        }
    }
    assert forall|m: int| 0 <= m < evs.len() && sends_terminal_at(evs, m) implies m == j by {
        if m > j {
            lemma_terminal_send_is_last(evs, j, m);
        } else if m < j {
            lemma_terminal_send_is_last(evs, m, j);
        }
    }
    assert(records_at(evs, i) && sends_terminal_at(evs, j) && unregisters_at(evs, k));
}

/// Until the permit is acquired a job does nothing else: it waits for the
/// permit, and records nothing, sends nothing and removes no channel. With
/// the permits bounded, so are the jobs past this point.
pub proof fn lemma_nothing_before_permit(evs: Seq<RunEventView>, n: int)
    requires
        0 <= n <= evs.len(),
        forall|i: int| 0 <= i < n ==> !(#[trigger] evs[i] is PermitAcquired),
    ensures
        phase_after(evs, n) is Waiting,
        pending_of(phase_after(evs, n)) is AcquirePermit,
        forall|i: int|
            0 <= i < n ==> !#[trigger] records_at(evs, i) && !sends_at(evs, i) && !unregisters_at(
                evs,
                i,
            ),
    decreases n,
{
    if n == 0 {
        assert(evs.take(0) =~= Seq::<RunEventView>::empty());
    } else {
        lemma_nothing_before_permit(evs, n - 1);
        lemma_run_step(evs, n - 1);
    }
}

/// A job past its first step acquired its permit first: every step but
/// waiting for the permit comes after the permit-acquired outcome.
pub proof fn lemma_permit_comes_first(evs: Seq<RunEventView>, n: int)
    requires
        0 <= n <= evs.len(),
        !(pending_of(phase_after(evs, n)) is AcquirePermit),
    ensures
        exists|i: int| 0 <= i < n && #[trigger] evs[i] is PermitAcquired && phase_after(evs, i) is Waiting,
    decreases n,
{
    if forall|i: int| 0 <= i < n ==> !(#[trigger] evs[i] is PermitAcquired) {
        lemma_nothing_before_permit(evs, n);
    }
    let i = choose|i: int| 0 <= i < n && #[trigger] evs[i] is PermitAcquired;
    lemma_first_permit(evs, i);
}

/// The first permit-acquired outcome arrives while the job is waiting.
proof fn lemma_first_permit(evs: Seq<RunEventView>, i: int)
    requires
        0 <= i < evs.len(),
        evs[i] is PermitAcquired,
    ensures
        exists|j: int| 0 <= j <= i && #[trigger] evs[j] is PermitAcquired && phase_after(evs, j) is Waiting,
    decreases i,
{
    if exists|j: int| 0 <= j < i && #[trigger] evs[j] is PermitAcquired {
        let j = choose|j: int| 0 <= j < i && #[trigger] evs[j] is PermitAcquired;
        lemma_first_permit(evs, j);
    } else {
        lemma_nothing_before_permit(evs, i);
        assert(evs[i] is PermitAcquired && phase_after(evs, i) is Waiting);
    }
}

/// The progress values sent among the first `n` outcomes, in order.
pub open spec fn sent_values(evs: Seq<RunEventView>, n: int) -> Seq<ProgressView>
    decreases n,
{
    if n <= 0 {
        Seq::empty()
    } else if sends_at(evs, n - 1) {
        sent_values(evs, n - 1).push(pending_of(phase_after(evs, n - 1))->Publish_0)
    } else {
        sent_values(evs, n - 1)
    }
}

/// The percentages `yt-dlp` reported that the job took in among the first
/// `n` outcomes, in order.
pub open spec fn reported_values(evs: Seq<RunEventView>, n: int) -> Seq<u32>
    decreases n,
{
    if n <= 0 {
        Seq::empty()
    } else if phase_after(evs, n - 1) is Downloading && evs[n - 1] is Progressed {
        reported_values(evs, n - 1).push(evs[n - 1]->Progressed_0)
    } else {
        reported_values(evs, n - 1)
    }
}

/// Running progress at each of the given percentages.
pub open spec fn running_values(bits: Seq<u32>) -> Seq<ProgressView> {
    bits.map_values(|b: u32| ProgressView::Running { percent_bits: b })
}

/// Running at zero percent, then running at each reported percentage.
pub open spec fn start_and_reports(bits: Seq<u32>) -> Seq<ProgressView> {
    seq![ProgressView::Running { percent_bits: zero_percent_bits() }] + running_values(bits)
}

/// What has been sent so far, by phase.
pub open spec fn sends_so_far(p: RunPhaseView, sent: Seq<ProgressView>, reported: Seq<u32>) -> bool {
    match p {
        RunPhaseView::Waiting | RunPhaseView::Marking | RunPhaseView::Announcing => sent.len() == 0
            && reported.len() == 0,
        RunPhaseView::Reporting { percent_bits } => reported.len() > 0 && reported.last()
            == percent_bits && sent == start_and_reports(reported.drop_last()),
        RunPhaseView::Closing | RunPhaseView::Finished => sent.len() > 0 && sent.drop_last()
            == start_and_reports(reported) && sent.last().is_terminal(),
        _ => sent == start_and_reports(reported),
    }
}

proof fn lemma_sends_so_far(evs: Seq<RunEventView>, n: int)
    requires
        0 <= n <= evs.len(),
    ensures
        sends_so_far(phase_after(evs, n), sent_values(evs, n), reported_values(evs, n)),
    decreases n,
{
    if n == 0 {
        assert(evs.take(0) =~= Seq::<RunEventView>::empty());
    } else {
        lemma_sends_so_far(evs, n - 1);
        lemma_run_step(evs, n - 1);
        lemma_end_publish_terminal(evs, n - 1);
        let p = phase_after(evs, n - 1);
        let e = evs[n - 1];
        let sent = sent_values(evs, n - 1);
        let rep = reported_values(evs, n - 1);
        if p is Announcing && e is Published {
            assert(running_values(rep) =~= Seq::<ProgressView>::empty());
            assert(sent_values(evs, n) =~= start_and_reports(reported_values(evs, n)));
        } else if p is Downloading && e is Progressed {
            assert(reported_values(evs, n).drop_last() =~= rep);
        } else if p is Reporting && e is Published {
            let b = p->Reporting_percent_bits;
            assert(rep =~= rep.drop_last().push(b));
            assert(running_values(rep) =~= running_values(rep.drop_last()).push(
                ProgressView::Running { percent_bits: b },
            ));
            assert(sent_values(evs, n) =~= start_and_reports(reported_values(evs, n)));
        } else if p is Ending && e is Published {
            assert(sent_values(evs, n).drop_last() =~= sent);
        }
    }
}

/// The progress a finished job sent, in order: running at zero percent, then
/// running at each percentage `yt-dlp` reported, in the order reported, then
/// one terminal value, and nothing else.
pub proof fn lemma_sends_in_order(evs: Seq<RunEventView>)
    requires
        run_phase(evs) is Finished,
    ensures
        sent_values(evs, evs.len() as int).len() == reported_values(evs, evs.len() as int).len()
            + 2,
        sent_values(evs, evs.len() as int).drop_last() == start_and_reports(
            reported_values(evs, evs.len() as int),
        ),
        sent_values(evs, evs.len() as int).last().is_terminal(),
{
    assert(evs.take(evs.len() as int) =~= evs);
    lemma_sends_so_far(evs, evs.len() as int);
    let r = reported_values(evs, evs.len() as int);
    assert(running_values(r).len() == r.len());
    assert(start_and_reports(r).len() == r.len() + 1);
}

/// Past marking the row running: the job has acquired its permit and marked
/// its row.
pub open spec fn past_marking(p: RunPhaseView) -> bool {
    !(p is Waiting) && !(p is Marking)
}

proof fn lemma_marking_witness(evs: Seq<RunEventView>, n: int) -> (i: int)
    requires
        0 <= n <= evs.len(),
    ensures
        past_marking(phase_after(evs, n)) ==> 0 <= i < n && phase_after(evs, i) is Marking
            && evs[i] is RunningMarked,
    decreases n,
{
    if n == 0 {
        assert(evs.take(0) =~= Seq::<RunEventView>::empty());
        0
    } else {
        let w = lemma_marking_witness(evs, n - 1);
        lemma_run_step(evs, n - 1);
        if phase_after(evs, n - 1) is Marking && evs[n - 1] is RunningMarked {
            n - 1
        } else {
            w
        }
    }
}

/// The row is marked running before anything is sent on the channel, before
/// the download runs and before the job's end is recorded.
pub proof fn lemma_marked_before_anything_else(evs: Seq<RunEventView>, k: int)
    requires
        0 <= k < evs.len(),
        sends_at(evs, k) || records_at(evs, k) || phase_after(evs, k) is Downloading,
    ensures
        exists|i: int| 0 <= i < k && phase_after(evs, i) is Marking && #[trigger] evs[i] is RunningMarked,
{
    let i = lemma_marking_witness(evs, k);
    assert(evs[i] is RunningMarked);
}

/// Where the job's outcome came from: the file being recorded, deleted or
/// reported done is the one the download produced; the error being recorded
/// is the one the download failed with; a file reported done was recorded
/// as done in exactly one row first; a file being deleted is reported as an
/// internal error.
proof fn lemma_outcome_witness(evs: Seq<RunEventView>, n: int) -> (w: (int, int))
    requires
        0 <= n <= evs.len(),
    ensures
        match phase_after(evs, n) {
            RunPhaseView::RecordingDone { file } => 0 <= w.0 < n && phase_after(evs, w.0) is Downloading
                && evs[w.0] == RunEventView::Downloaded(Ok(file)),
            RunPhaseView::Discarding { file, publish } => 0 <= w.0 < n && phase_after(
                evs,
                w.0,
            ) is Downloading && evs[w.0] == RunEventView::Downloaded(Ok(file)) && publish
                == (ProgressView::Failed { user_facing_error: "Internal error"@ }),
            RunPhaseView::RecordingFailed { error } => 0 <= w.0 < n && phase_after(
                evs,
                w.0,
            ) is Downloading && evs[w.0] == RunEventView::Downloaded(Err(error)),
            RunPhaseView::Ending { publish } => match publish {
                ProgressView::Done { file } => 0 <= w.0 < w.1 < n && phase_after(
                    evs,
                    w.0,
                ) is Downloading && evs[w.0] == RunEventView::Downloaded(Ok(file)) && phase_after(
                    evs,
                    w.1,
                ) == (RunPhaseView::RecordingDone { file }) && evs[w.1] == RunEventView::DoneRecorded(
                    Some(1u64),
                ),
                _ => true,
            },
            _ => true,
        },
    decreases n,
{
    if n == 0 {
        assert(evs.take(0) =~= Seq::<RunEventView>::empty());
        (0, 0)
    } else {
        let w = lemma_outcome_witness(evs, n - 1);
        lemma_run_step(evs, n - 1);
        let p = phase_after(evs, n - 1);
        let e = evs[n - 1];
        if p is Downloading && e is Downloaded {
            (n - 1, w.1)
        } else if p is RecordingDone && e is DoneRecorded {
            (w.0, n - 1)
        } else {
            w
        }
    }
}

/// The file recorded as done is the file the download produced.
pub proof fn lemma_recorded_file_is_downloaded_file(evs: Seq<RunEventView>, n: int)
    requires
        0 <= n <= evs.len(),
        phase_after(evs, n) is RecordingDone,
    ensures
        pending_of(phase_after(evs, n)) == (RunStepView::RecordDone {
            file: phase_after(evs, n)->RecordingDone_file,
        }),
        exists|i: int|
            0 <= i < n && phase_after(evs, i) is Downloading && #[trigger] evs[i]
                == RunEventView::Downloaded(Ok(phase_after(evs, n)->RecordingDone_file)),
{
    let w = lemma_outcome_witness(evs, n);
    assert(evs[w.0] == RunEventView::Downloaded(Ok(phase_after(evs, n)->RecordingDone_file)));
}

/// The message recorded for a failed download is the client message of the
/// error the download failed with.
pub proof fn lemma_recorded_failure_is_download_error(evs: Seq<RunEventView>, n: int)
    requires
        0 <= n <= evs.len(),
        phase_after(evs, n) is RecordingFailed,
    ensures
        exists|i: int|
            0 <= i < n && phase_after(evs, i) is Downloading && #[trigger] evs[i]
                == RunEventView::Downloaded(Err(phase_after(evs, n)->RecordingFailed_error))
                && pending_of(phase_after(evs, n)) == (RunStepView::RecordFailed {
                message: user_message_of(evs[i]->Downloaded_0->Err_0),
            }),
{
    let w = lemma_outcome_witness(evs, n);
    assert(evs[w.0] == RunEventView::Downloaded(Err(phase_after(evs, n)->RecordingFailed_error)));
}

/// A job reported done is reported with the very file its download
/// produced, and only after exactly one row was marked done with that file.
pub proof fn lemma_done_reports_downloaded_and_recorded_file(evs: Seq<RunEventView>, k: int, file: Seq<char>)
    requires
        0 <= k < evs.len(),
        sends_at(evs, k),
        pending_of(phase_after(evs, k)) == RunStepView::Publish(ProgressView::Done { file }),
    ensures
        exists|i: int, r: int|
            0 <= i < r < k && phase_after(evs, i) is Downloading && #[trigger] evs[i]
                == RunEventView::Downloaded(Ok(file)) && phase_after(evs, r) == (RunPhaseView::RecordingDone {
                file,
            }) && #[trigger] evs[r] == RunEventView::DoneRecorded(Some(1u64)),
{
    let w = lemma_outcome_witness(evs, k);
    assert(phase_after(evs, k) is Ending);
    assert(evs[w.0] == RunEventView::Downloaded(Ok(file)));
    assert(evs[w.1] == RunEventView::DoneRecorded(Some(1u64)));
}

/// A file is deleted only when it is the file the download produced and its
/// success could not be recorded; the job then reports an internal error.
pub proof fn lemma_deleted_file_is_unrecorded_download(evs: Seq<RunEventView>, n: int)
    requires
        0 <= n <= evs.len(),
        phase_after(evs, n) is Discarding,
    ensures
        pending_of(phase_after(evs, n)) == (RunStepView::RemoveFile {
            file: phase_after(evs, n)->Discarding_file,
        }),
        exists|i: int|
            0 <= i < n && phase_after(evs, i) is Downloading && #[trigger] evs[i]
                == RunEventView::Downloaded(Ok(phase_after(evs, n)->Discarding_file)),
        phase_after(evs, n)->Discarding_publish == (ProgressView::Failed {
            user_facing_error: "Internal error"@,
        }),
{
    let w = lemma_outcome_witness(evs, n);
    assert(evs[w.0] == RunEventView::Downloaded(Ok(phase_after(evs, n)->Discarding_file)));
}

/// Drives one job.
pub struct JobRun {
    phase: RunPhase,
}

impl JobRun {
    /// Where the job stands.
    pub closed spec fn phase(&self) -> RunPhaseView {
        self.phase@
    }

    /// A job that has not started yet.
    pub fn new() -> (r: JobRun)
        ensures
            r.phase() == RunPhaseView::Waiting,
    {
        JobRun { phase: RunPhase::Waiting }
    }

    /// The step the job waits on.
    pub fn pending(&self) -> (s: RunStep)
        ensures
            s@ == pending_of(self.phase()),
    {
        match &self.phase {
            RunPhase::Waiting => RunStep::AcquirePermit,
            RunPhase::Marking => RunStep::MarkRunning,
            RunPhase::Announcing => RunStep::Publish(Progress::started()),
            RunPhase::Downloading => RunStep::Download,
            RunPhase::Reporting { percent_bits } => RunStep::Publish(
                Progress::Running { percent_bits: *percent_bits },
            ),
            RunPhase::RecordingDone { file } => RunStep::RecordDone { file: file.clone() },
            RunPhase::RecordingFailed { error } => RunStep::RecordFailed {
                message: String::from_str(error.user_message()),
            },
            RunPhase::Discarding { file, .. } => RunStep::RemoveFile { file: file.clone() },
            RunPhase::Ending { publish } => RunStep::Publish(publish.duplicate()),
            RunPhase::Closing => RunStep::Unregister,
            RunPhase::Finished => RunStep::Finished,
        }
    }

    /// Takes in the outcome of the pending step.
    pub fn on(&mut self, e: RunEvent)
        ensures
            final(self).phase() == after(old(self).phase(), e@),
    {
        let mut cur = RunPhase::Finished;
        std::mem::swap(&mut cur, &mut self.phase);
        let next = match (cur, e) {
            (RunPhase::Waiting, RunEvent::PermitAcquired) => RunPhase::Marking,
            (RunPhase::Marking, RunEvent::RunningMarked) => RunPhase::Announcing,
            (RunPhase::Announcing, RunEvent::Published) => RunPhase::Downloading,
            (RunPhase::Downloading, RunEvent::Progressed(percent_bits)) => RunPhase::Reporting {
                percent_bits,
            },
            (RunPhase::Reporting { .. }, RunEvent::Published) => RunPhase::Downloading,
            (RunPhase::Downloading, RunEvent::Downloaded(Ok(file))) => RunPhase::RecordingDone {
                file,
            },
            (RunPhase::Downloading, RunEvent::Downloaded(Err(error))) => RunPhase::RecordingFailed {
                error,
            },
            (RunPhase::RecordingDone { file }, RunEvent::DoneRecorded(rows)) => {
                let settled = settle_success(file, rows);
                match settled.discard {
                    Some(stale) => RunPhase::Discarding { file: stale, publish: settled.publish },
                    None => RunPhase::Ending { publish: settled.publish },
                }
            },
            (RunPhase::RecordingFailed { error }, RunEvent::FailedRecorded) => RunPhase::Ending {
                publish: settle_failure(error),
            },
            (RunPhase::Discarding { publish, .. }, RunEvent::FileRemoved) => RunPhase::Ending {
                publish,
            },
            (RunPhase::Ending { .. }, RunEvent::Published) => RunPhase::Closing,
            (RunPhase::Closing, RunEvent::Unregistered) => RunPhase::Finished,
            (other, _) => other,
        };
        self.phase = next;
    }
}

} // verus!
