//! Clean-up of old downloads: how often the sweep runs, and the bookkeeping
//! of one sweep. Which jobs are old is decided by the database query that
//! lists them; marking rows and deleting files is I/O outside the library.
use vstd::prelude::*;
use crate::text::opt_text;

verus! {

/// The period between sweeps, as seconds and nanoseconds: the configured
/// interval, but never under one second (a zero period would stop the timer
/// and with it all clean-up).
pub open spec fn reaper_period_of(secs: u64, nanos: u32) -> (u64, u32) {
    if secs >= 1 {
        (secs, nanos)
    } else {
        (1, 0)
    }
}

/// The period between sweeps for a configured interval of `secs` seconds and
/// `nanos` nanoseconds.
pub fn reaper_period(secs: u64, nanos: u32) -> (r: (u64, u32))
    requires
        nanos < 1_000_000_000,
    ensures
        r == reaper_period_of(secs, nanos),
{
    if secs >= 1 {
        (secs, nanos)
    } else {
        (1, 0)
    }
}

/// The period is at least one second, and is the configured interval
/// whenever that is one second or more.
pub proof fn lemma_reaper_period_at_least_one_second(secs: u64, nanos: u32)
    ensures
        reaper_period_of(secs, nanos).0 >= 1,
        secs >= 1 ==> reaper_period_of(secs, nanos) == (secs, nanos),
{
}

/// One sweep over the jobs found expired, as `(id, file)` rows (a `done` row
/// may lack a file): each row is first marked expired, and only a row that
/// was marked has its file deleted, so a failed delete leaks disk space
/// rather than leaving a `done` job whose file is gone. A row without a file
/// is marked like any other and has nothing deleted.
pub struct ReapSweep {
    rows: Vec<(String, Option<String>)>,
    next: usize,
    expired: usize,
}

impl ReapSweep {
    #[verifier::type_invariant]
    closed spec fn counts_fit(self) -> bool {
        self.expired <= self.next <= self.rows.len()
    }

    /// The rows of the sweep, as `(id, file)` character sequences.
    pub closed spec fn rows_seq(self) -> Seq<(Seq<char>, Option<Seq<char>>)> {
        self.rows@.map_values(|r: (String, Option<String>)| (r.0@, opt_text(r.1)))
    }

    /// How many rows have been handled.
    pub closed spec fn handled(self) -> nat {
        self.next as nat
    }

    /// How many rows have been marked expired.
    pub closed spec fn expired_so_far(self) -> nat {
        self.expired as nat
    }

    /// Starts a sweep over the rows the query found.
    pub fn new(rows: Vec<(String, Option<String>)>) -> (s: ReapSweep)
        ensures
            s.rows_seq() == rows@.map_values(|r: (String, Option<String>)| (r.0@, opt_text(r.1))),
            s.handled() == 0,
            s.expired_so_far() == 0,
    {
        ReapSweep { rows, next: 0, expired: 0 }
    }

    /// The id of the job to mark expired next, or `None` when the sweep is
    /// over.
    pub fn next_job(&self) -> (r: Option<String>)
        ensures
            self.handled() < self.rows_seq().len() ==> r is Some && r->0@ == self.rows_seq()[self.handled() as int].0,
            self.handled() >= self.rows_seq().len() ==> r is None,
    {
        proof {
            use_type_invariant(self);
        }
        if self.next < self.rows.len() {
            Some(self.rows[self.next].0.clone())
        } else {
            None
        }
    }

    /// Records whether the current job was marked expired. Returns the file
    /// to delete: the job's file when it was marked and has one, nothing
    /// otherwise.
    pub fn record(&mut self, marked: bool) -> (r: Option<String>)
        requires
            old(self).handled() < old(self).rows_seq().len(),
        ensures
            final(self).rows_seq() == old(self).rows_seq(),
            final(self).handled() == old(self).handled() + 1,
            final(self).expired_so_far() == old(self).expired_so_far() + if marked {
                1nat
            } else {
                0nat
            },
            opt_text(r) == if marked {
                old(self).rows_seq()[old(self).handled() as int].1
            } else {
                None
            },
    {
        proof {
            use_type_invariant(&*self);
        }
        let i: usize = self.next;
        let file = if marked {
            match &self.rows[i].1 {
                Some(f) => Some(f.clone()),
                None => None,
            }
        } else {
            None
        };
        self.next = i + 1;
        if marked {
            self.expired = self.expired + 1;
        }
        file
    }

    /// How many jobs the sweep has marked expired.
    pub fn expired(&self) -> (n: usize)
        ensures
            n == self.expired_so_far(),
    {
        self.expired
    }
}

} // verus!
