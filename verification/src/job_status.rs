//! Lifecycle of a job, as stored in the `jobs.status` column.
use vstd::prelude::*;
use crate::text::str_eq;

verus! {

/// Lifecycle of a job. The database keeps it as lower-case text (see
/// [`JobStatus::as_str`]); those strings predate the enum and already exist
/// in deployed databases.
#[derive(Debug, Clone, Copy, PartialEq, Eq, Structural)]
pub enum JobStatus {
    Queued,
    Running,
    Done,
    Failed,
    Expired,
}

/// The text stored for each status.
pub open spec fn status_text(s: JobStatus) -> Seq<char> {
    match s {
        JobStatus::Queued => "queued"@,
        JobStatus::Running => "running"@,
        JobStatus::Done => "done"@,
        JobStatus::Failed => "failed"@,
        JobStatus::Expired => "expired"@,
    }
}

/// The status whose stored text is `t`, if any.
pub open spec fn status_from_text(t: Seq<char>) -> Option<JobStatus> {
    if t == "queued"@ {
        Some(JobStatus::Queued)
    } else if t == "running"@ {
        Some(JobStatus::Running)
    } else if t == "done"@ {
        Some(JobStatus::Done)
    } else if t == "failed"@ {
        Some(JobStatus::Failed)
    } else if t == "expired"@ {
        Some(JobStatus::Expired)
    } else {
        None
    }
}

/// A job in one of these states will not change any more by itself.
pub open spec fn status_is_terminal(s: JobStatus) -> bool {
    s == JobStatus::Done || s == JobStatus::Failed || s == JobStatus::Expired
}

impl JobStatus {
    /// The lower-case text stored in the database.
    pub fn as_str(&self) -> (t: &'static str)
        ensures
            t@ == status_text(*self),
    {
        match self {
            JobStatus::Queued => "queued",
            JobStatus::Running => "running",
            JobStatus::Done => "done",
            JobStatus::Failed => "failed",
            JobStatus::Expired => "expired",
        }
    }

    /// Decodes the stored text; anything else is not a status.
    pub fn from_text(t: &str) -> (r: Option<JobStatus>)
        ensures
            r == status_from_text(t@),
    {
        if str_eq(t, "queued") {
            Some(JobStatus::Queued)
        } else if str_eq(t, "running") {
            Some(JobStatus::Running)
        } else if str_eq(t, "done") {
            Some(JobStatus::Done)
        } else if str_eq(t, "failed") {
            Some(JobStatus::Failed)
        } else if str_eq(t, "expired") {
            Some(JobStatus::Expired)
        } else {
            None
        }
    }
}

/// The stored texts, one by one, and nothing else decodes to a status: a
/// text decodes exactly when it is one of these five lower-case words.
pub proof fn lemma_status_texts(t: Seq<char>)
    ensures
        status_text(JobStatus::Queued) == seq!['q', 'u', 'e', 'u', 'e', 'd'],
        status_text(JobStatus::Running) == seq!['r', 'u', 'n', 'n', 'i', 'n', 'g'],
        status_text(JobStatus::Done) == seq!['d', 'o', 'n', 'e'],
        status_text(JobStatus::Failed) == seq!['f', 'a', 'i', 'l', 'e', 'd'],
        status_text(JobStatus::Expired) == seq!['e', 'x', 'p', 'i', 'r', 'e', 'd'],
        status_from_text(t) is Some <==> (t == seq!['q', 'u', 'e', 'u', 'e', 'd'] || t == seq![
            'r',
            'u',
            'n',
            'n',
            'i',
            'n',
            'g',
        ] || t == seq!['d', 'o', 'n', 'e'] || t == seq!['f', 'a', 'i', 'l', 'e', 'd'] || t == seq![
            'e',
            'x',
            'p',
            'i',
            'r',
            'e',
            'd',
        ]),
        status_from_text(t) matches Some(s) ==> status_text(s) == t,
{
    reveal_strlit("queued");
    reveal_strlit("running");
    reveal_strlit("done");
    reveal_strlit("failed");
    reveal_strlit("expired");
    assert("queued"@ =~= seq!['q', 'u', 'e', 'u', 'e', 'd']);
    assert("running"@ =~= seq!['r', 'u', 'n', 'n', 'i', 'n', 'g']);
    assert("done"@ =~= seq!['d', 'o', 'n', 'e']);
    assert("failed"@ =~= seq!['f', 'a', 'i', 'l', 'e', 'd']);
    assert("expired"@ =~= seq!['e', 'x', 'p', 'i', 'r', 'e', 'd']);
}

/// Done, failed and expired jobs are finished; queued and running ones are
/// not.
pub proof fn lemma_terminal_statuses()
    ensures
        status_is_terminal(JobStatus::Done),
        status_is_terminal(JobStatus::Failed),
        status_is_terminal(JobStatus::Expired),
        !status_is_terminal(JobStatus::Queued),
        !status_is_terminal(JobStatus::Running),
{
}

/// Decoding the stored text of a status gives that status back, so every
/// status survives a write to and a read from the database.
pub proof fn lemma_status_text_round_trip(s: JobStatus)
    ensures
        status_from_text(status_text(s)) == Some(s),
{
    reveal_strlit("queued");
    reveal_strlit("running");
    reveal_strlit("done");
    reveal_strlit("failed");
    reveal_strlit("expired");
    assert("queued"@.len() == 6 && "running"@.len() == 7 && "done"@.len() == 4);
    assert("failed"@.len() == 6 && "expired"@.len() == 7);
    assert("queued"@[0] != "failed"@[0]);
    assert("running"@[0] != "expired"@[0]);
}

/// Two different statuses are never stored as the same text.
pub proof fn lemma_status_text_injective(a: JobStatus, b: JobStatus)
    ensures
        status_text(a) == status_text(b) ==> a == b,
{
    lemma_status_text_round_trip(a);
    lemma_status_text_round_trip(b);
}

} // verus!
