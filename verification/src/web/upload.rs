//! Uploaded RPM files and error replies of the web service: the name an
//! upload is stored under, how a `name.arch` is split, what the upload and
//! removal requests answer, and the status and message each error is
//! answered with.

use vstd::prelude::*;
use crate::text::{chars_of, decimal, ends_with, ends_with_vec, push_decimal_u64, push_str};
use crate::web::adapter::{file_name_of, path_file_name};

verus! {

/// What a refine request can fail with.
#[derive(Clone, Debug, PartialEq, Eq)]
pub enum RefineError {
    UnknownTarget(String),
    NothingToUndo,
    NothingToRedo,
    StaleGeneration { expected: u64, actual: u64 },
    UntrustedSnapshot(String),
    ArchiveSafety(String),
    BadRequest(String),
    NotFound(String),
    TarballError(String),
    /// An internal failure, by its message.
    Internal(String),
}

/// An error's view: its variant and message.
pub enum RefineErrorView {
    UnknownTarget(Seq<char>),
    NothingToUndo,
    NothingToRedo,
    StaleGeneration { expected: u64, actual: u64 },
    UntrustedSnapshot(Seq<char>),
    ArchiveSafety(Seq<char>),
    BadRequest(Seq<char>),
    NotFound(Seq<char>),
    TarballError(Seq<char>),
    Internal(Seq<char>),
}

pub open spec fn error_view(e: RefineError) -> RefineErrorView {
    match e {
        RefineError::UnknownTarget(t) => RefineErrorView::UnknownTarget(t@),
        RefineError::NothingToUndo => RefineErrorView::NothingToUndo,
        RefineError::NothingToRedo => RefineErrorView::NothingToRedo,
        RefineError::StaleGeneration { expected, actual } => RefineErrorView::StaleGeneration { expected, actual },
        RefineError::UntrustedSnapshot(m) => RefineErrorView::UntrustedSnapshot(m@),
        RefineError::ArchiveSafety(m) => RefineErrorView::ArchiveSafety(m@),
        RefineError::BadRequest(m) => RefineErrorView::BadRequest(m@),
        RefineError::NotFound(m) => RefineErrorView::NotFound(m@),
        RefineError::TarballError(m) => RefineErrorView::TarballError(m@),
        RefineError::Internal(m) => RefineErrorView::Internal(m@),
    }
}

/// The HTTP status and message an error is answered with; internal
/// failures are answered without their details.
pub open spec fn error_reply(e: RefineErrorView) -> (u16, Seq<char>) {
    match e {
        RefineErrorView::UnknownTarget(t) => (422, "unknown target: "@ + t),
        RefineErrorView::NothingToUndo => (409, "nothing to undo"@),
        RefineErrorView::NothingToRedo => (409, "nothing to redo"@),
        RefineErrorView::StaleGeneration { expected, actual } => (
            409,
            "stale generation: expected "@ + decimal(expected as nat) + ", got "@ + decimal(actual as nat),
        ),
        RefineErrorView::UntrustedSnapshot(m) => (422, m),
        RefineErrorView::ArchiveSafety(m) => (400, m),
        RefineErrorView::BadRequest(m) => (400, m),
        RefineErrorView::NotFound(m) => (404, m),
        _ => (500, "internal error"@),
    }
}

fn own(x: &str) -> (r: String)
    ensures
        r@ == x@,
{
    x.to_owned()
}

fn cat(a: &str, b: &str) -> (r: String)
    ensures
        r@ == a@ + b@,
{
    let mut r = own(a);
    push_str(&mut r, b);
    r
}

/// The status and message of the reply to a failed request.
pub fn error_status_and_message(e: &RefineError) -> (r: (u16, String))
    ensures
        (r.0, r.1@) == error_reply(error_view(*e)),
{
    match e {
        RefineError::UnknownTarget(t) => (422, cat("unknown target: ", t.as_str())),
        RefineError::NothingToUndo => (409, own("nothing to undo")),
        RefineError::NothingToRedo => (409, own("nothing to redo")),
        RefineError::StaleGeneration { expected, actual } => {
            let mut m = own("stale generation: expected ");
            push_decimal_u64(&mut m, *expected);
            push_str(&mut m, ", got ");
            push_decimal_u64(&mut m, *actual);
            (409, m)
        },
        RefineError::UntrustedSnapshot(m) => (422, own(m.as_str())),
        RefineError::ArchiveSafety(m) => (400, own(m.as_str())),
        RefineError::BadRequest(m) => (400, own(m.as_str())),
        RefineError::NotFound(m) => (404, own(m.as_str())),
        RefineError::TarballError(_) => (500, own("internal error")),
        RefineError::Internal(_) => (500, own("internal error")),
    }
}

// ---- uploads ----

/// The name an upload is stored under: the final component of the name it
/// came with (`unknown.rpm` when it came with none, or when that has no
/// final component).
pub open spec fn upload_name(raw: Option<Seq<char>>) -> Seq<char> {
    let r = match raw {
        Some(s) => s,
        None => "unknown.rpm"@,
    };
    match path_file_name(r) {
        Some(n) => n,
        None => "unknown.rpm"@,
    }
}

/// The name an upload is stored under, refused unless it ends in `.rpm`.
pub fn upload_file_name(raw: Option<&str>) -> (r: Result<String, RefineError>)
    ensures
        ({
            let raw_view = match raw {
                Some(s) => Some(s@),
                None => None,
            };
            let name = upload_name(raw_view);
            match r {
                Ok(n) => n@ == name && ends_with(name, ".rpm"@),
                Err(e) => !ends_with(name, ".rpm"@) && error_view(e) == RefineErrorView::BadRequest(
                    "only .rpm files accepted, got: "@ + name,
                ),
            }
        }),
{
    let given = match raw {
        Some(s) => own(s),
        None => own("unknown.rpm"),
    };
    let name = match file_name_of(given.as_str()) {
        Some(n) => n,
        None => own("unknown.rpm"),
    };
    let suffix = chars_of(".rpm");
    if ends_with_vec(&chars_of(name.as_str()), &suffix) {
        Ok(name)
    } else {
        Err(RefineError::BadRequest(cat("only .rpm files accepted, got: ", name.as_str())))
    }
}

/// What an upload request answers: how many files were stored, the
/// `name.arch` of the repo-less package the last one matched, and whether
/// it matched.
pub struct UploadReply {
    pub uploaded: u32,
    pub matched: Option<String>,
    pub status: String,
}

pub fn upload_reply(uploaded: u32, matched: Option<String>) -> (r: UploadReply)
    ensures
        r.uploaded == uploaded,
        r.matched == matched,
        r.status@ == (if matched is Some { "matched"@ } else { "unmatched"@ }),
{
    let status = if matched.is_some() { own("matched") } else { own("unmatched") };
    UploadReply { uploaded, matched, status }
}

/// The position of the last `.` of `s`.
pub open spec fn last_dot(s: Seq<char>) -> Option<int>
    decreases s.len(),
{
    if s.len() == 0 {
        None
    } else if s.last() == '.' {
        Some(s.len() - 1)
    } else {
        last_dot(s.drop_last())
    }
}

proof fn lemma_last_dot(s: Seq<char>)
    ensures
        match last_dot(s) {
            Some(i) => 0 <= i < s.len() && s[i] == '.' && forall|j: int| i < j < s.len() ==> #[trigger] s[j] != '.',
            None => forall|j: int| 0 <= j < s.len() ==> #[trigger] s[j] != '.',
        },
    decreases s.len(),
{
    if s.len() > 0 {
        lemma_last_dot(s.drop_last());
        assert forall|j: int| 0 <= j < s.len() - 1 implies #[trigger] s[j] == s.drop_last()[j] by {}
    }
}

fn string_of(v: &Vec<char>, from: usize, to: usize) -> (r: String)
    requires
        from <= to <= v@.len(),
    ensures
        r@ == v@.subrange(from as int, to as int),
{
    let mut r = String::new();
    let mut i = from;
    while i < to
        invariant
            from <= i <= to,
            to <= v@.len(),
            r@ == v@.subrange(from as int, i as int),
        decreases to - i,
    {
        crate::text::push_char(&mut r, v[i]);
        assert(v@.subrange(from as int, i + 1) =~= v@.subrange(from as int, i as int).push(v@[i as int]));
        i = i + 1;
    }
    r
}

/// A package's `name.arch` split at its last dot; refused when it has no
/// dot.
pub fn split_name_arch(name_arch: &str) -> (r: Result<(String, String), RefineError>)
    ensures
        match last_dot(name_arch@) {
            Some(i) => r matches Ok(p) && p.0@ == name_arch@.take(i) && p.1@ == name_arch@.skip(i + 1),
            None => r matches Err(e) && error_view(e) == RefineErrorView::BadRequest("invalid name.arch format: "@ + name_arch@),
        },
{
    let v = chars_of(name_arch);
    let mut i = v.len();
    proof {
        lemma_last_dot(name_arch@);
    }
    while i > 0
        invariant
            i <= v@.len(),
            v@ == name_arch@,
            forall|j: int| i <= j < v@.len() ==> #[trigger] v@[j] != '.',
        decreases i,
    {
        if v[i - 1] == '.' {
            let name = string_of(&v, 0, i - 1);
            let arch = string_of(&v, i, v.len());
            proof {
                lemma_last_dot(name_arch@);
                let k = i - 1;
                match last_dot(name_arch@) {
                    Some(d) => {
                        if d > k {
                            assert(v@[d] == '.');
                        } else if d < k {
                            assert(name_arch@[k as int] == '.');
                        }
                    },
                    None => {
                        assert(name_arch@[k as int] == '.');
                    },
                }
            }
            assert(name_arch@.take(i - 1) =~= v@.subrange(0, i - 1));
            assert(name_arch@.skip(i as int) =~= v@.subrange(i as int, v@.len() as int));
            return Ok((name, arch));
        }
        i = i - 1;
    }
    proof {
        match last_dot(name_arch@) {
            Some(d) => {
                assert(v@[d] == '.');
            },
            None => {},
        }
    }
    Err(RefineError::BadRequest(cat("invalid name.arch format: ", name_arch)))
}

/// What a removal request answers: the `name.arch` removed.
pub struct RemoveReply {
    pub removed: String,
    pub status: String,
}

/// The answer to removing the upload of `name_arch`, by whether one was
/// found.
pub fn remove_reply(name_arch: &str, found: bool) -> (r: Result<RemoveReply, RefineError>)
    ensures
        found ==> (r matches Ok(rep) && rep.removed@ == name_arch@ && rep.status@ == "removed"@),
        !found ==> (r matches Err(e) && error_view(e) == RefineErrorView::NotFound("no uploaded RPM for "@ + name_arch@)),
{
    if !found {
        return Err(RefineError::NotFound(cat("no uploaded RPM for ", name_arch)));
    }
    Ok(RemoveReply { removed: own(name_arch), status: own("removed") })
}

} // verus!
