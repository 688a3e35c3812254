//! One download job: the `yt-dlp` command line, reading its progress output,
//! judging how it ended, finding the file it wrote, and what is recorded and
//! published once it is over. Running the process, the database writes and
//! the channel sends are I/O and happen outside the library, in the order
//! the functions here are named in.
use vstd::prelude::*;
use vstd::string::*;
use crate::progress::{Progress, ProgressView};
use crate::submit::Mode;
use crate::text::{
    ends_with, has_suffix, is_white_space, lemma_back_white_to, lemma_skip_white_to,
    lemma_trim_bounds, opt_text, trim_bounds, trim_end_index, trimmed,
};

verus! {

/// How a download can go wrong. The operating-system errors behind `Spawn`
/// and `Wait` are logged where they happen and not carried here.
#[derive(Debug, Clone, Copy, PartialEq, Eq, Structural)]
pub enum DownloadError {
    Spawn,
    StdoutNotCaptured,
    Wait,
    NonZeroExit(Option<i32>),
    NoOutputFile,
}

/// The message a client is shown for each error; internal detail stays in
/// the logs.
pub open spec fn user_message_of(e: DownloadError) -> Seq<char> {
    match e {
        DownloadError::Spawn => "Failed to start the download"@,
        DownloadError::StdoutNotCaptured => "Internal error starting the download"@,
        DownloadError::Wait => "Download process failed unexpectedly"@,
        DownloadError::NonZeroExit(_) => "Download failed"@,
        DownloadError::NoOutputFile => "Download completed but produced no file"@,
    }
}

/// What each error tells the client, and that an exit code is never shown:
/// every non-zero exit gives the same message.
pub proof fn lemma_user_messages(a: Option<i32>, b: Option<i32>)
    ensures
        user_message_of(DownloadError::Spawn) == "Failed to start the download"@,
        user_message_of(DownloadError::StdoutNotCaptured) == "Internal error starting the download"@,
        user_message_of(DownloadError::Wait) == "Download process failed unexpectedly"@,
        user_message_of(DownloadError::NonZeroExit(a)) == "Download failed"@,
        user_message_of(DownloadError::NoOutputFile) == "Download completed but produced no file"@,
        user_message_of(DownloadError::NonZeroExit(a)) == user_message_of(
            DownloadError::NonZeroExit(b),
        ),
{
}

impl DownloadError {
    /// Message safe to show to the client; internal detail stays in the logs.
    pub fn user_message(&self) -> (m: &'static str)
        ensures
            m@ == user_message_of(*self),
    {
        match self {
            DownloadError::Spawn => "Failed to start the download",
            DownloadError::StdoutNotCaptured => "Internal error starting the download",
            DownloadError::Wait => "Download process failed unexpectedly",
            DownloadError::NonZeroExit(_) => "Download failed",
            DownloadError::NoOutputFile => "Download completed but produced no file",
        }
    }
}

/// The directory a job's download is written to.
pub open spec fn job_dir_of(id: Seq<char>) -> Seq<char> {
    "/tmp/ytdlp/"@ + id
}

/// The output template handed to `yt-dlp`: the title and extension of the
/// media, inside the job's directory.
pub open spec fn output_template_of(id: Seq<char>) -> Seq<char> {
    job_dir_of(id) + "/%(title)s.%(ext)s"@
}

/// The directory a job's download is written to.
pub fn job_dir(id: &str) -> (d: String)
    ensures
        d@ == job_dir_of(id@),
{
    String::from_str("/tmp/ytdlp/").concat(id)
}

/// The output template handed to `yt-dlp` for a job.
pub fn output_template(id: &str) -> (t: String)
    ensures
        t@ == output_template_of(id@),
{
    job_dir(id).concat("/%(title)s.%(ext)s")
}

/// The options that select what is downloaded.
pub open spec fn mode_args_of(mode: Mode) -> Seq<Seq<char>> {
    match mode {
        Mode::Video => seq!["-f"@, "bv*+ba/b"@],
        Mode::Audio => seq!["-x"@, "--audio-quality"@, "0"@],
    }
}

/// The arguments `yt-dlp` is started with: where to write, one video only,
/// one progress line per update in a fixed form, the mode's options, and the
/// URL after `--` so that it is never read as an option.
pub open spec fn ytdlp_args_of(id: Seq<char>, url: Seq<char>, mode: Mode) -> Seq<Seq<char>> {
    seq![
        "-o"@,
        output_template_of(id),
        "--no-playlist"@,
        "--newline"@,
        "--progress-template"@,
        "download:%(progress._percent_str)s"@,
    ] + mode_args_of(mode) + seq!["--"@, url]
}

/// The arguments `yt-dlp` is started with for a job.
pub fn ytdlp_args(id: &str, url: &str, mode: Mode) -> (args: Vec<String>)
    ensures
        args@.map_values(|a: String| a@) == ytdlp_args_of(id@, url@, mode),
{
    let mut args: Vec<String> = Vec::new();
    args.push(String::from_str("-o"));
    args.push(output_template(id));
    args.push(String::from_str("--no-playlist"));
    args.push(String::from_str("--newline"));
    args.push(String::from_str("--progress-template"));
    args.push(String::from_str("download:%(progress._percent_str)s"));
    match mode {
        Mode::Video => {
            args.push(String::from_str("-f"));
            args.push(String::from_str("bv*+ba/b"));
        },
        Mode::Audio => {
            args.push(String::from_str("-x"));
            args.push(String::from_str("--audio-quality"));
            args.push(String::from_str("0"));
        },
    }
    args.push(String::from_str("--"));
    args.push(String::from_str(url));
    assert(args@.map_values(|a: String| a@) =~= ytdlp_args_of(id@, url@, mode));
    args
}

/// The URL is the last argument and comes right after `--`, so `yt-dlp`
/// never takes a submitted URL for an option.
pub proof fn lemma_url_follows_separator(id: Seq<char>, url: Seq<char>, mode: Mode)
    ensures
        ytdlp_args_of(id, url, mode).len() >= 2,
        ytdlp_args_of(id, url, mode).last() == url,
        ytdlp_args_of(id, url, mode)[ytdlp_args_of(id, url, mode).len() - 2] == "--"@,
{
}

/// The numeric text of a progress line: the line without surrounding white
/// space, when it ends in `%`, with that `%` taken off.
pub open spec fn percent_text_of(line: Seq<char>) -> Option<Seq<char>> {
    let t = trimmed(line);
    if t.len() > 0 && t.last() == '%' {
        Some(t.drop_last())
    } else {
        None
    }
}

/// The numeric part of a progress line such as `  42.0%`; `None` for any
/// other line. The number itself is read outside the library.
pub fn percent_text(line: &str) -> (r: Option<String>)
    ensures
        opt_text(r) == percent_text_of(line@),
{
    let (a, b): (usize, usize) = trim_bounds(line);
    proof {
        lemma_trim_bounds(line@);
    }
    if b > a && line.get_char(b - 1) == '%' {
        let digits = line.substring_char(a, b - 1);
        assert(digits@ =~= trimmed(line@).drop_last());
        Some(String::from_str(digits))
    } else {
        None
    }
}

/// The output template lies inside the job's directory, which is the
/// directory the finished file is looked for in: `/tmp/ytdlp/<id>`, then the
/// title and extension, for every id.
pub proof fn lemma_output_inside_job_dir(id: Seq<char>)
    ensures
        job_dir_of(id) == "/tmp/ytdlp/"@ + id,
        output_template_of(id) == "/tmp/ytdlp/"@ + id + "/%(title)s.%(ext)s"@,
        output_template_of(id).subrange(0, job_dir_of(id).len() as int) == job_dir_of(id),
        output_template_of(id)[job_dir_of(id).len() as int] == '/',
        ytdlp_args_of(id, "x"@, Mode::Video)[1] == output_template_of(id),
        forall|url: Seq<char>, mode: Mode| #[trigger] ytdlp_args_of(id, url, mode)[1] == output_template_of(id),
{
    reveal_strlit("/%(title)s.%(ext)s");
    let t = output_template_of(id);
    let d = job_dir_of(id);
    assert(t.subrange(0, d.len() as int) =~= d);
    assert(t[d.len() as int] == "/%(title)s.%(ext)s"@[0]);
}

/// The arguments, one by one: where to write, one video only, one progress
/// line per update in a fixed form, the mode's options, `--`, the URL.
pub proof fn lemma_ytdlp_args_in_full(id: Seq<char>, url: Seq<char>)
    ensures
        ytdlp_args_of(id, url, Mode::Video) == seq![
            "-o"@,
            "/tmp/ytdlp/"@ + id + "/%(title)s.%(ext)s"@,
            "--no-playlist"@,
            "--newline"@,
            "--progress-template"@,
            "download:%(progress._percent_str)s"@,
            "-f"@,
            "bv*+ba/b"@,
            "--"@,
            url,
        ],
        ytdlp_args_of(id, url, Mode::Audio) == seq![
            "-o"@,
            "/tmp/ytdlp/"@ + id + "/%(title)s.%(ext)s"@,
            "--no-playlist"@,
            "--newline"@,
            "--progress-template"@,
            "download:%(progress._percent_str)s"@,
            "-x"@,
            "--audio-quality"@,
            "0"@,
            "--"@,
            url,
        ],
{
    assert(ytdlp_args_of(id, url, Mode::Video) =~= seq![
        "-o"@,
        "/tmp/ytdlp/"@ + id + "/%(title)s.%(ext)s"@,
        "--no-playlist"@,
        "--newline"@,
        "--progress-template"@,
        "download:%(progress._percent_str)s"@,
        "-f"@,
        "bv*+ba/b"@,
        "--"@,
        url,
    ]);
    assert(ytdlp_args_of(id, url, Mode::Audio) =~= seq![
        "-o"@,
        "/tmp/ytdlp/"@ + id + "/%(title)s.%(ext)s"@,
        "--no-playlist"@,
        "--newline"@,
        "--progress-template"@,
        "download:%(progress._percent_str)s"@,
        "-x"@,
        "--audio-quality"@,
        "0"@,
        "--"@,
        url,
    ]);
}

/// A name ends in one of `yt-dlp`'s unfinished-file suffixes.
pub open spec fn ends_in_five(name: Seq<char>, suffix: Seq<char>) -> bool {
    name.len() >= 5 && name.subrange(name.len() - 5, name.len() as int) == suffix
}

/// A name is taken for an unfinished file exactly when it ends in `.part`,
/// `.ytdl` or `.temp`; every other regular file is a candidate for the
/// finished download.
pub proof fn lemma_partial_names_exactly(name: Seq<char>, e: DirEntryInfo)
    ensures
        is_partial_name(name) <==> (ends_in_five(name, seq!['.', 'p', 'a', 'r', 't']) || ends_in_five(
            name,
            seq!['.', 'y', 't', 'd', 'l'],
        ) || ends_in_five(name, seq!['.', 't', 'e', 'm', 'p'])),
        is_output_candidate(e) <==> (e.is_file && !ends_in_five(
            e.path_lossy@,
            seq!['.', 'p', 'a', 'r', 't'],
        ) && !ends_in_five(e.path_lossy@, seq!['.', 'y', 't', 'd', 'l']) && !ends_in_five(
            e.path_lossy@,
            seq!['.', 't', 'e', 'm', 'p'],
        )),
{
    reveal_strlit(".part");
    reveal_strlit(".ytdl");
    reveal_strlit(".temp");
    assert(".part"@ =~= seq!['.', 'p', 'a', 'r', 't']);
    assert(".ytdl"@ =~= seq!['.', 'y', 't', 'd', 'l']);
    assert(".temp"@ =~= seq!['.', 't', 'e', 'm', 'p']);
}

/// A listing whose only regular file lacks the unfinished-file suffixes
/// yields that file's path, whatever else the directory holds.
pub proof fn lemma_lone_finished_file_is_found(es: Seq<DirEntryInfo>, k: int)
    requires
        0 <= k < es.len(),
        es[k].is_file,
        !ends_in_five(es[k].path_lossy@, seq!['.', 'p', 'a', 'r', 't']),
        !ends_in_five(es[k].path_lossy@, seq!['.', 'y', 't', 'd', 'l']),
        !ends_in_five(es[k].path_lossy@, seq!['.', 't', 'e', 'm', 'p']),
        forall|m: int| 0 <= m < es.len() && m != k ==> !(#[trigger] es[m]).is_file,
    ensures
        first_file_of(Some(es)) == opt_text(es[k].path),
{
    lemma_partial_names_exactly(es[k].path_lossy@, es[k]);
    lemma_latest_candidate(es, es.len() as int);
    match latest_candidate(es, es.len() as int) {
        None => {
            assert(!is_output_candidate(es[k]));
        },
        Some(j) => {
            assert(es[j].is_file);
        },
    }
}

/// Some regular file without an unfinished-file suffix means a file is
/// picked (when its path is valid UTF-8), and the one picked is a regular
/// file without such a suffix.
pub proof fn lemma_finished_file_is_picked(es: Seq<DirEntryInfo>, k: int)
    requires
        0 <= k < es.len(),
        es[k].is_file,
        !ends_in_five(es[k].path_lossy@, seq!['.', 'p', 'a', 'r', 't']),
        !ends_in_five(es[k].path_lossy@, seq!['.', 'y', 't', 'd', 'l']),
        !ends_in_five(es[k].path_lossy@, seq!['.', 't', 'e', 'm', 'p']),
    ensures
        latest_candidate(es, es.len() as int) matches Some(j) && es[j].is_file && !ends_in_five(
            es[j].path_lossy@,
            seq!['.', 'p', 'a', 'r', 't'],
        ) && !ends_in_five(es[j].path_lossy@, seq!['.', 'y', 't', 'd', 'l']) && !ends_in_five(
            es[j].path_lossy@,
            seq!['.', 't', 'e', 'm', 'p'],
        ) && first_file_of(Some(es)) == opt_text(es[j].path),
{
    lemma_partial_names_exactly(es[k].path_lossy@, es[k]);
    lemma_latest_candidate(es, es.len() as int);
    if let Some(j) = latest_candidate(es, es.len() as int) {
        lemma_partial_names_exactly(es[j].path_lossy@, es[j]);
    }
}

/// The numeric text of a progress line is whatever stands between the
/// line's leading white space and its final `%` followed only by white
/// space: for every white-space prefix, number text that does not begin
/// with white space, and white-space suffix.
pub proof fn lemma_percent_text_of_formed_line(pre: Seq<char>, num: Seq<char>, post: Seq<char>)
    requires
        forall|i: int| 0 <= i < pre.len() ==> is_white_space(#[trigger] pre[i]),
        forall|i: int| 0 <= i < post.len() ==> is_white_space(#[trigger] post[i]),
        num.len() > 0 ==> !is_white_space(num[0]),
    ensures
        percent_text_of(pre + num + seq!['%'] + post) == Some(num),
{
    let line = pre + num + seq!['%'] + post;
    let a = pre.len() as int;
    let b: int = (pre.len() + num.len() + 1) as int;
    assert(!is_white_space('%'));
    assert(line[b - 1] == '%');
    assert forall|j: int| 0 <= j < a implies is_white_space(#[trigger] line[j]) by {
        assert(line[j] == pre[j]);
    }
    assert(!is_white_space(line[a])) by {
        if num.len() > 0 {
            assert(line[a] == num[0]);
        } else {
            assert(line[a] == '%');
        }
    }
    lemma_skip_white_to(line, 0, a);
    assert forall|m: int| b <= m < line.len() implies is_white_space(#[trigger] line[m]) by {
        assert(line[m] == post[m - b]);
    }
    lemma_back_white_to(line, a, line.len() as int, b);
    assert(trimmed(line) =~= num + seq!['%']);
    assert(trimmed(line).drop_last() =~= num);
}

/// A line without `%` is no progress line.
pub proof fn lemma_no_percent_sign_no_text(line: Seq<char>)
    requires
        forall|i: int| 0 <= i < line.len() ==> #[trigger] line[i] != '%',
    ensures
        percent_text_of(line) is None,
{
    lemma_trim_bounds(line);
    let t = trimmed(line);
    if t.len() > 0 {
        assert(t.last() == line[trim_end_index(line) - 1]);
    }
}

/// How the process ended: a non-zero exit is an error carrying the exit code
/// (none when a signal ended it).
pub fn check_exit(success: bool, code: Option<i32>) -> (r: Result<(), DownloadError>)
    ensures
        success ==> r is Ok,
        !success ==> r == Err::<(), DownloadError>(DownloadError::NonZeroExit(code)),
{
    if success {
        Ok(())
    } else {
        Err(DownloadError::NonZeroExit(code))
    }
}

/// One entry of a job's directory.
pub struct DirEntryInfo {
    /// The full path, with any invalid UTF-8 replaced.
    pub path_lossy: String,
    /// The full path when it is valid UTF-8.
    pub path: Option<String>,
    /// Whether the entry is a regular file.
    pub is_file: bool,
    /// Last modification time in nanoseconds from the Unix epoch (negative
    /// before it), when the file system reports one.
    pub modified: Option<i128>,
}

/// Names of files `yt-dlp` is still writing or has left unfinished.
pub open spec fn is_partial_name(name: Seq<char>) -> bool {
    has_suffix(name, ".part"@) || has_suffix(name, ".ytdl"@) || has_suffix(name, ".temp"@)
}

/// An entry that may be the finished download.
pub open spec fn is_output_candidate(e: DirEntryInfo) -> bool {
    e.is_file && !is_partial_name(e.path_lossy@)
}

/// The order on modification times: a known time is later than an unknown
/// one.
pub open spec fn modified_at_least(a: Option<i128>, b: Option<i128>) -> bool {
    match (a, b) {
        (_, None) => true,
        (None, Some(_)) => false,
        (Some(x), Some(y)) => x >= y,
    }
}

/// The order on modification times, spelled out: of two known times the
/// later (or equal) one wins, a known time beats an unknown one, and an
/// unknown time never beats a known one. So the file picked is the one
/// modified last, not first.
pub proof fn lemma_modified_order(x: i128, y: i128, o: Option<i128>)
    ensures
        modified_at_least(Some(x), Some(y)) <==> x >= y,
        modified_at_least(o, None),
        !modified_at_least(None, Some(y)),
{
}

/// Among the first `n` entries, the candidate modified last; of several
/// modified at the same latest time, the one listed last.
pub open spec fn latest_candidate(es: Seq<DirEntryInfo>, n: int) -> Option<int>
    decreases n,
{
    if n <= 0 {
        None
    } else {
        let prev = latest_candidate(es, n - 1);
        if !is_output_candidate(es[n - 1]) {
            prev
        } else {
            match prev {
                None => Some(n - 1),
                Some(j) => if modified_at_least(es[n - 1].modified, es[j].modified) {
                    Some(n - 1)
                } else {
                    Some(j)
                },
            }
        }
    }
}

/// The path of the finished download in a directory listing (`None` when the
/// directory could not be read): the latest candidate, when its path is
/// valid UTF-8.
pub open spec fn first_file_of(listing: Option<Seq<DirEntryInfo>>) -> Option<Seq<char>> {
    match listing {
        None => None,
        Some(es) => match latest_candidate(es, es.len() as int) {
            None => None,
            Some(j) => opt_text(es[j].path),
        },
    }
}

fn is_partial_file(name: &str) -> (r: bool)
    ensures
        r == is_partial_name(name@),
{
    ends_with(name, ".part") || ends_with(name, ".ytdl") || ends_with(name, ".temp")
}

fn later_or_same(a: Option<i128>, b: Option<i128>) -> (r: bool)
    ensures
        r == modified_at_least(a, b),
{
    match (a, b) {
        (_, None) => true,
        (None, Some(_)) => false,
        (Some(x), Some(y)) => x >= y,
    }
}

/// Picks the finished download out of the job directory's listing.
pub fn first_file_in(listing: Option<&Vec<DirEntryInfo>>) -> (r: Option<String>)
    ensures
        opt_text(r) == first_file_of(
            match listing {
                Some(es) => Some(es@),
                None => None,
            },
        ),
{
    let es = match listing {
        None => {
            return None;
        },
        Some(es) => es,
    };
    let mut best: Option<usize> = None;
    let mut i: usize = 0;
    while i < es.len()
        invariant
            i <= es@.len(),
            match best {
                None => latest_candidate(es@, i as int) is None,
                Some(j) => latest_candidate(es@, i as int) == Some(j as int) && j < i,
            },
        decreases es@.len() - i,
    {
        let e = &es[i];
        if e.is_file && !is_partial_file(e.path_lossy.as_str()) {
            match best {
                None => {
                    best = Some(i);
                },
                Some(j) => {
                    if later_or_same(e.modified, es[j].modified) {
                        best = Some(i);
                    }
                },
            }
        }
        i = i + 1;
    }
    match best {
        None => None,
        Some(j) => match &es[j].path {
            Some(p) => Some(p.clone()),
            None => None,
        },
    }
}

/// The file a finished download wrote, or `NoOutputFile`.
pub fn output_file(listing: Option<&Vec<DirEntryInfo>>) -> (r: Result<String, DownloadError>)
    ensures
        ({
            let found = first_file_of(
                match listing {
                    Some(es) => Some(es@),
                    None => None,
                },
            );
            match r {
                Ok(f) => found == Some(f@),
                Err(e) => found is None && e == DownloadError::NoOutputFile,
            }
        }),
{
    match first_file_in(listing) {
        Some(f) => Ok(f),
        None => Err(DownloadError::NoOutputFile),
    }
}

/// What the latest candidate is: a candidate that is modified no earlier
/// than any other candidate, and strictly later than every candidate listed
/// after it; `None` only when no entry is a candidate. So the file picked is
/// never one `yt-dlp` is still writing.
pub proof fn lemma_latest_candidate(es: Seq<DirEntryInfo>, n: int)
    requires
        0 <= n <= es.len(),
    ensures
        match latest_candidate(es, n) {
            None => forall|k: int| 0 <= k < n ==> !is_output_candidate(#[trigger] es[k]),
            Some(j) => {
                &&& 0 <= j < n
                &&& is_output_candidate(es[j])
                &&& forall|k: int|
                    0 <= k < n && is_output_candidate(#[trigger] es[k]) ==> modified_at_least(
                        es[j].modified,
                        es[k].modified,
                    )
                &&& forall|k: int|
                    j < k < n && is_output_candidate(#[trigger] es[k]) ==> !modified_at_least(
                        es[k].modified,
                        es[j].modified,
                    )
            },
        },
    decreases n,
{
    if n > 0 {
        lemma_latest_candidate(es, n - 1);
    }
}

/// Published when a finished download could not be recorded.
pub open spec fn internal_error_message() -> Seq<char> {
    "Internal error"@
}

/// What becomes of a finished download once the database was asked to mark
/// the job done: what to publish, and the file to delete, if any.
pub struct Settled {
    pub publish: Progress,
    pub discard: Option<String>,
}

/// The progress published after a finished download, by how many rows the
/// write marked done (`None` when the write failed). Only one row marked
/// done is a recorded success.
pub open spec fn success_publish_of(file: Seq<char>, rows_affected: Option<u64>) -> ProgressView {
    if rows_affected == Some(1u64) {
        ProgressView::Done { file }
    } else {
        ProgressView::Failed { user_facing_error: internal_error_message() }
    }
}

/// The file deleted after a finished download: the download itself, when
/// its success could not be recorded, so no file outlives a job that does not
/// point at it.
pub open spec fn success_discard_of(file: Seq<char>, rows_affected: Option<u64>) -> Option<
    Seq<char>,
> {
    if rows_affected == Some(1u64) {
        None
    } else {
        Some(file)
    }
}

/// Decides the end of a job whose download produced `file`, given the
/// outcome of recording it.
pub fn settle_success(file: String, rows_affected: Option<u64>) -> (s: Settled)
    ensures
        s.publish@ == success_publish_of(file@, rows_affected),
        opt_text(s.discard) == success_discard_of(file@, rows_affected),
{
    match rows_affected {
        Some(1) => Settled { publish: Progress::Done { file }, discard: None },
        _ => Settled { publish: Progress::failed("Internal error"), discard: Some(file) },
    }
}

/// The progress published when a download failed: its client message,
/// which is also what is recorded in the job's row.
pub open spec fn failure_publish_of(e: DownloadError) -> ProgressView {
    ProgressView::Failed { user_facing_error: user_message_of(e) }
}

/// Decides the end of a job whose download failed.
pub fn settle_failure(e: DownloadError) -> (p: Progress)
    ensures
        p@ == failure_publish_of(e),
{
    Progress::failed(e.user_message())
}

/// How a finished download ends, spelled out: exactly one row marked done is
/// a recorded success, reported done with the file and nothing deleted;
/// any other count, or a failed write, is reported as an internal error and
/// the file is deleted. A failed download is reported with its client
/// message.
pub proof fn lemma_settlement(file: Seq<char>, rows: Option<u64>, e: DownloadError)
    ensures
        rows == Some(1u64) ==> success_publish_of(file, rows) == (ProgressView::Done { file })
            && success_discard_of(file, rows) is None,
        rows != Some(1u64) ==> success_publish_of(file, rows) == (ProgressView::Failed {
            user_facing_error: "Internal error"@,
        }) && success_discard_of(file, rows) == Some(file),
        failure_publish_of(e) == (ProgressView::Failed { user_facing_error: user_message_of(e) }),
{
}

/// Every job ends by publishing a terminal progress, whatever the download
/// and the database did, so a client following it always sees the end.
pub proof fn lemma_job_end_is_terminal(file: Seq<char>, rows_affected: Option<u64>, e: DownloadError)
    ensures
        success_publish_of(file, rows_affected).is_terminal(),
        failure_publish_of(e).is_terminal(),
{
}

/// A downloaded file is deleted exactly when the job is not reported done
/// with it: a client is never pointed at a deleted file, and a file nobody
/// can fetch does not stay behind.
pub proof fn lemma_discard_iff_not_done(file: Seq<char>, rows_affected: Option<u64>)
    ensures
        success_discard_of(file, rows_affected) is Some <==> !(success_publish_of(
            file,
            rows_affected,
        ) is Done),
        success_discard_of(file, rows_affected) is Some ==> success_discard_of(
            file,
            rows_affected,
        ) == Some(file),
{
}

} // verus!
