//! Naming the file a finished job is served under. Looking the job up and
//! streaming the file are I/O outside the library.
use vstd::prelude::*;
use vstd::string::*;
use crate::text::opt_text;

verus! {

/// The final component of a path, as `std::path::Path::file_name` gives it.
pub uninterp spec fn path_file_name_of(path: Seq<char>) -> Option<Seq<char>>;

/// A single path component: not empty, without a `/`, and not `..`.
pub open spec fn is_plain_component(n: Seq<char>) -> bool {
    &&& n.len() > 0
    &&& forall|i: int| 0 <= i < n.len() ==> #[trigger] n[i] != '/'
    &&& n != ".."@
}

/// Calls `std::path::Path::file_name` on `path` and copies the result into a
/// `String`. The component is a piece of `path`, so it is valid UTF-8. The
/// contract names the result and states what std documents of it: it is a
/// component of the path (split at `/`, repeated separators ignored, so never
/// empty and never holding a `/`) and it is never `..` (a path ending in `..`
/// has no file name). Which component it is for a given path is left to std.
#[verifier::external_body]
fn path_file_name(path: &str) -> (r: Option<String>)
    ensures
        opt_text(r) == path_file_name_of(path@),
        r matches Some(n) ==> is_plain_component(n@),
{
    match std::path::Path::new(path).file_name() {
        Some(n) => match n.to_str() {
            Some(t) => Some(t.to_string()),
            None => None,
        },
        None => None,
    }
}

/// The name offered for a download: the path's final component, or
/// `download` when it has none.
pub open spec fn name_or_default_of(name: Option<Seq<char>>) -> Seq<char> {
    match name {
        Some(n) => n,
        None => "download"@,
    }
}

/// The name offered for a download, given the path's final component.
pub fn name_or_default(name: Option<String>) -> (r: String)
    ensures
        r@ == name_or_default_of(opt_text(name)),
{
    match name {
        Some(n) => n,
        None => String::from_str("download"),
    }
}

/// Whenever the path has a final component, that component is the offered
/// name unchanged, whatever its length or characters; only a path without
/// one is offered as `download`. The header quotes the name unchanged.
pub proof fn lemma_offered_name(n: Seq<char>)
    ensures
        name_or_default_of(Some(n)) == n,
        name_or_default_of(None) == "download"@,
        forall|path: Seq<char>|
            #[trigger] path_file_name_of(path) == Some(n) ==> name_or_default_of(
                path_file_name_of(path),
            ) == n,
        content_disposition_of(n) == "attachment; filename=\""@ + n + "\""@,
{
}

/// The name a finished job's file is offered under. It is always a single
/// plain component: the browser is never offered a path.
pub fn download_file_name(path: &str) -> (r: String)
    ensures
        r@ == name_or_default_of(path_file_name_of(path@)),
        is_plain_component(r@),
{
    let found = path_file_name(path);
    proof {
        reveal_strlit("download");
        reveal_strlit("..");
    }
    name_or_default(found)
}

/// The `Content-Disposition` header value that asks the browser to save the
/// response under `file_name`.
pub open spec fn content_disposition_of(file_name: Seq<char>) -> Seq<char> {
    "attachment; filename=\""@ + file_name + "\""@
}

/// The `Content-Disposition` header value for a file name.
pub fn content_disposition(file_name: &str) -> (r: String)
    ensures
        r@ == content_disposition_of(file_name@),
{
    String::from_str("attachment; filename=\"").concat(file_name).concat("\"")
}

} // verus!
