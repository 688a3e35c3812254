//! What a client submits: a URL and a download mode, and the id it gets back.
use vstd::prelude::*;
use crate::text::str_eq;

verus! {

/// Whether to keep the video or extract only the audio track. Stored in the
/// database and sent by clients as lower-case text (see [`Mode::as_str`]).
#[derive(Debug, Clone, Copy, PartialEq, Eq, Structural)]
pub enum Mode {
    Video,
    Audio,
}

/// The text under which each mode is stored and submitted.
pub open spec fn mode_text(m: Mode) -> Seq<char> {
    match m {
        Mode::Video => "video"@,
        Mode::Audio => "audio"@,
    }
}

/// The mode whose text is `t`, if any.
pub open spec fn mode_from_text(t: Seq<char>) -> Option<Mode> {
    if t == "video"@ {
        Some(Mode::Video)
    } else if t == "audio"@ {
        Some(Mode::Audio)
    } else {
        None
    }
}

impl Mode {
    /// The lower-case text of the mode.
    pub fn as_str(&self) -> (t: &'static str)
        ensures
            t@ == mode_text(*self),
    {
        match self {
            Mode::Video => "video",
            Mode::Audio => "audio",
        }
    }

    /// Decodes the text of a mode; anything else is not a mode.
    pub fn from_text(t: &str) -> (r: Option<Mode>)
        ensures
            r == mode_from_text(t@),
    {
        if str_eq(t, "video") {
            Some(Mode::Video)
        } else if str_eq(t, "audio") {
            Some(Mode::Audio)
        } else {
            None
        }
    }
}

/// The mode texts, and nothing else decodes to a mode.
pub proof fn lemma_mode_texts(t: Seq<char>)
    ensures
        mode_text(Mode::Video) == seq!['v', 'i', 'd', 'e', 'o'],
        mode_text(Mode::Audio) == seq!['a', 'u', 'd', 'i', 'o'],
        mode_from_text(t) is Some <==> (t == seq!['v', 'i', 'd', 'e', 'o'] || t == seq![
            'a',
            'u',
            'd',
            'i',
            'o',
        ]),
        mode_from_text(t) matches Some(m) ==> mode_text(m) == t,
{
    reveal_strlit("video");
    reveal_strlit("audio");
    assert("video"@ =~= seq!['v', 'i', 'd', 'e', 'o']);
    assert("audio"@ =~= seq!['a', 'u', 'd', 'i', 'o']);
}

/// Decoding the text of a mode gives that mode back.
pub proof fn lemma_mode_text_round_trip(m: Mode)
    ensures
        mode_from_text(mode_text(m)) == Some(m),
{
    reveal_strlit("video");
    reveal_strlit("audio");
    assert("video"@[0] != "audio"@[0]);
}

/// The body of a submission.
pub struct SubmitReq {
    pub url: String,
    pub mode: Mode,
}

/// The answer to a submission: the id under which the job can be followed.
pub struct SubmitResp {
    pub id: String,
}

/// A lower-case hexadecimal digit.
pub open spec fn is_lower_hex(c: char) -> bool {
    ('0' <= c && c <= '9') || ('a' <= c && c <= 'f')
}

/// The hyphenated lower-case text of a random (version 4) UUID, such as
/// `67e55044-10b1-426f-9247-bb680e5fe0c8`.
pub open spec fn is_uuid_v4_text(t: Seq<char>) -> bool {
    &&& t.len() == 36
    &&& forall|i: int|
        0 <= i < 36 ==> if i == 8 || i == 13 || i == 18 || i == 23 {
            #[trigger] t[i] == '-'
        } else {
            is_lower_hex(t[i])
        }
    &&& t[14] == '4'
    &&& (t[19] == '8' || t[19] == '9' || t[19] == 'a' || t[19] == 'b')
}

/// What a job id looks like: 36 characters, hyphens at positions 8, 13, 18
/// and 23, lower-case hexadecimal digits elsewhere, `4` at position 14 and
/// one of `8`, `9`, `a`, `b` at position 19; so 32 hexadecimal digits in
/// groups of 8, 4, 4, 4 and 12.
pub proof fn lemma_job_id_shape(t: Seq<char>)
    requires
        is_uuid_v4_text(t),
    ensures
        t.len() == 36,
        t[8] == '-' && t[13] == '-' && t[18] == '-' && t[23] == '-',
        forall|i: int|
            0 <= i < 36 && i != 8 && i != 13 && i != 18 && i != 23 ==> (('0' <= #[trigger] t[i]
                && t[i] <= '9') || ('a' <= t[i] && t[i] <= 'f')),
        t[14] == '4',
        t[19] == '8' || t[19] == '9' || t[19] == 'a' || t[19] == 'b',
{
    assert(t[8] == '-');
    assert(t[13] == '-');
    assert(t[18] == '-');
    assert(t[23] == '-');
}

/// Calls `uuid::Uuid::new_v4` and formats the result with `to_string`.
/// The source draws 128 random bits, forces the version nibble to 4 and the
/// variant bits to `10`, and `Display` writes the lower-case hyphenated form;
/// the contract states that form. Which UUID comes out is left open.
#[verifier::external_body]
fn random_uuid_v4_text() -> (t: String)
    ensures
        is_uuid_v4_text(t@),
{
    uuid::Uuid::new_v4().to_string()
}

/// A fresh id for a submitted job.
pub fn new_job_id() -> (id: String)
    ensures
        is_uuid_v4_text(id@),
{
    random_uuid_v4_text()
}

/// A job id never holds a `/` and is never `.` or `..`, so the per-job output
/// directory named after it is always a direct child of the download root.
pub proof fn lemma_job_id_is_path_component(t: Seq<char>)
    requires
        is_uuid_v4_text(t),
    ensures
        forall|i: int| 0 <= i < t.len() ==> t[i] != '/',
        t != "."@,
        t != ".."@,
{
    reveal_strlit(".");
    reveal_strlit("..");
    assert forall|i: int| 0 <= i < t.len() implies t[i] != '/' by {
        assert(t[i] == t[i]);
    }
}

} // verus!
