//! The disk cache: one file per variable, named filesystem-safely after the
//! variable, holding the raw value as its entire contents, under a fixed
//! `vcvars-cache` subdirectory of a caller-supplied output directory.
//!
//! Filesystem access cannot happen here, so a lookup is a request/response
//! machine like the resolver's: [`CacheLookup::begin`] and
//! [`CacheLookup::resume`] hand out a [`CacheRequest`]; the driver performs
//! it and feeds a [`CacheResponse`] back. A hit returns the file's contents
//! without ever consulting the resolver; a miss asks the driver for the
//! resolver's value, persists it, and returns it. A resolver failure is
//! propagated unchanged and leaves no cache file behind.

use vstd::prelude::*;

use crate::errors::VcvarsError;
use crate::text::{join_path, joined_path};

verus! {

// ---------------------------------------------------------------------------
// The sanitized file name
// ---------------------------------------------------------------------------

/// The filesystem-legal form of a file name; what
/// `filenamify::filenamify` returns for it.
pub uninterp spec fn sanitized_of(s: Seq<char>) -> Seq<char>;

/// Relies on `filenamify::filenamify`: replaces the character classes that
/// are illegal in file names on some filesystem; the result depends on the
/// input characters alone.
#[verifier::external_body]
fn sanitize_filename(s: &String) -> (r: String)
    ensures
        r@ == sanitized_of(s@),
{
    filenamify::filenamify(s)
}

/// The cache file for a variable: the sanitized `<name>.txt` under the
/// `vcvars-cache` subdirectory of the output directory.
pub open spec fn cache_file_spec(out_dir: Seq<char>, name: Seq<char>) -> Seq<char> {
    joined_path(joined_path(out_dir, "vcvars-cache"@), sanitized_of(name + ".txt"@))
}

// ---------------------------------------------------------------------------
// The protocol
// ---------------------------------------------------------------------------

/// What a cache lookup asks its driver to do next.
#[derive(Debug)]
pub enum CacheRequest {
    /// Create the directory (and its parents; idempotent) and answer with
    /// `CacheResponse::DirEnsured`.
    EnsureDir(String),
    /// Answer with `CacheResponse::Probed`: does the file exist?
    Probe(String),
    /// Read the file's full contents as text and answer with
    /// `CacheResponse::ReadDone`.
    ReadFile(String),
    /// Obtain the variable's value from the environment resolver and answer
    /// with `CacheResponse::ValueIs`.
    NeedValue(String),
    /// Write the value as the file's entire contents (create or truncate)
    /// and answer with `CacheResponse::WriteDone`.
    WriteFile(String, String),
}

/// A driver's answer to the matching [`CacheRequest`]; the `String` of an
/// `Err` is the underlying I/O error's text.
#[derive(Debug)]
pub enum CacheResponse {
    DirEnsured(Result<(), String>),
    Probed(bool),
    ReadDone(Result<String, String>),
    ValueIs(Result<String, VcvarsError>),
    WriteDone(Result<(), String>),
}

/// Where a lookup stands, or its result.
#[derive(Debug)]
pub enum CacheOutcome {
    /// The value, from the cache file or freshly resolved and persisted.
    Done(String),
    /// The driver must perform this request and call `resume`.
    Pending(CacheRequest),
}

/// Where the lookup machine stands between two steps.
#[derive(Debug)]
pub enum CachePhase {
    AwaitDir { cache_dir: String },
    AwaitProbe { cache_file: String },
    AwaitRead { cache_file: String },
    AwaitValue { cache_file: String },
    AwaitWrite { cache_file: String, value: String },
    Finished,
}

impl CachePhase {
    /// Which response the phase expects; `Finished` expects none.
    pub open spec fn expects(self, resp: CacheResponse) -> bool {
        match self {
            CachePhase::AwaitDir { .. } => resp is DirEnsured,
            CachePhase::AwaitProbe { .. } => resp is Probed,
            CachePhase::AwaitRead { .. } => resp is ReadDone,
            CachePhase::AwaitValue { .. } => resp is ValueIs,
            CachePhase::AwaitWrite { .. } => resp is WriteDone,
            CachePhase::Finished => false,
        }
    }
}

/// One disk-cache lookup for one variable.
pub struct CacheLookup {
    var_name: String,
    phase: CachePhase,
}

// ---------------------------------------------------------------------------
// The step relation
// ---------------------------------------------------------------------------

/// The directory step: failure is `CacheFailed` with the directory's path;
/// success computes the cache file's name and asks whether it exists.
pub open spec fn cache_step_dir_spec(
    pre: CacheLookup,
    cache_dir: String,
    res: Result<(), String>,
    post: CacheLookup,
    r: Result<CacheOutcome, VcvarsError>,
) -> bool {
    match res {
        Err(e) => {
            &&& r matches Err(VcvarsError::CacheFailed(p, cause)) && p@ == cache_dir@ && cause@
                == e@
            &&& post.phase() is Finished
        },
        Ok(_) => {
            &&& r matches Ok(CacheOutcome::Pending(CacheRequest::Probe(p))) && p@ == joined_path(
                cache_dir@,
                sanitized_of(pre.var_name()@ + ".txt"@),
            )
            &&& post.phase() matches CachePhase::AwaitProbe { cache_file } && cache_file@
                == joined_path(cache_dir@, sanitized_of(pre.var_name()@ + ".txt"@))
        },
    }
}

/// The probe step: an existing file is read; an absent one is a normal
/// miss, answered by the resolver.
pub open spec fn cache_step_probe_spec(
    pre: CacheLookup,
    cache_file: String,
    present: bool,
    post: CacheLookup,
    r: Result<CacheOutcome, VcvarsError>,
) -> bool {
    if present {
        &&& r matches Ok(CacheOutcome::Pending(CacheRequest::ReadFile(p))) && p@ == cache_file@
        &&& post.phase() matches CachePhase::AwaitRead { cache_file: f2 } && f2@ == cache_file@
    } else {
        &&& r matches Ok(CacheOutcome::Pending(CacheRequest::NeedValue(n))) && n@
            == pre.var_name()@
        &&& post.phase() matches CachePhase::AwaitValue { cache_file: f2 } && f2@ == cache_file@
    }
}

/// The read step: the file's contents are the value; a read failure is
/// `CacheFailed` with the file's path.
pub open spec fn cache_step_read_spec(
    cache_file: String,
    res: Result<String, String>,
    post: CacheLookup,
    r: Result<CacheOutcome, VcvarsError>,
) -> bool {
    match res {
        Ok(v) => {
            &&& r matches Ok(CacheOutcome::Done(v2)) && v2@ == v@
            &&& post.phase() is Finished
        },
        Err(e) => {
            &&& r matches Err(VcvarsError::CacheFailed(p, cause)) && p@ == cache_file@ && cause@
                == e@
            &&& post.phase() is Finished
        },
    }
}

/// The value step: a resolver failure is propagated unchanged, and no
/// cache file is written for it; a value in hand is written first.
pub open spec fn cache_step_value_spec(
    cache_file: String,
    res: Result<String, VcvarsError>,
    post: CacheLookup,
    r: Result<CacheOutcome, VcvarsError>,
) -> bool {
    match res {
        Ok(v) => {
            &&& r matches Ok(CacheOutcome::Pending(CacheRequest::WriteFile(p, w))) && p@
                == cache_file@ && w@ == v@
            &&& post.phase() matches CachePhase::AwaitWrite { cache_file: f2, value } && f2@
                == cache_file@ && value@ == v@
        },
        Err(e) => {
            &&& r == Err::<CacheOutcome, VcvarsError>(e)
            &&& post.phase() is Finished
        },
    }
}

/// The write step: the freshly resolved value is returned once persisted;
/// a write failure is `CacheFailed` with the file's path.
pub open spec fn cache_step_write_spec(
    cache_file: String,
    value: String,
    res: Result<(), String>,
    post: CacheLookup,
    r: Result<CacheOutcome, VcvarsError>,
) -> bool {
    match res {
        Ok(_) => {
            &&& r matches Ok(CacheOutcome::Done(v2)) && v2@ == value@
            &&& post.phase() is Finished
        },
        Err(e) => {
            &&& r matches Err(VcvarsError::CacheFailed(p, cause)) && p@ == cache_file@ && cause@
                == e@
            &&& post.phase() is Finished
        },
    }
}

/// What one cache `resume` step does, phase by phase.
pub open spec fn cache_resume_spec(
    pre: CacheLookup,
    resp: CacheResponse,
    post: CacheLookup,
    r: Result<CacheOutcome, VcvarsError>,
) -> bool {
    &&& post.var_name() == pre.var_name()
    &&& match pre.phase() {
        CachePhase::AwaitDir { cache_dir } => match resp {
            CacheResponse::DirEnsured(res) => cache_step_dir_spec(pre, cache_dir, res, post, r),
            _ => false,
        },
        CachePhase::AwaitProbe { cache_file } => match resp {
            CacheResponse::Probed(present) => cache_step_probe_spec(
                pre,
                cache_file,
                present,
                post,
                r,
            ),
            _ => false,
        },
        CachePhase::AwaitRead { cache_file } => match resp {
            CacheResponse::ReadDone(res) => cache_step_read_spec(cache_file, res, post, r),
            _ => false,
        },
        CachePhase::AwaitValue { cache_file } => match resp {
            CacheResponse::ValueIs(res) => cache_step_value_spec(cache_file, res, post, r),
            _ => false,
        },
        CachePhase::AwaitWrite { cache_file, value } => match resp {
            CacheResponse::WriteDone(res) => cache_step_write_spec(
                cache_file,
                value,
                res,
                post,
                r,
            ),
            _ => false,
        },
        CachePhase::Finished => false,
    }
}

impl CacheLookup {
    /// The variable this lookup is for.
    pub closed spec fn var_name(&self) -> String {
        self.var_name
    }

    /// Where the machine stands.
    pub closed spec fn phase(&self) -> CachePhase {
        self.phase
    }

    /// Starts a lookup for `var_name` under `out_dir`, which the caller
    /// asserts to exist: the first request creates the cache subdirectory.
    pub fn begin(out_dir: &str, var_name: &str) -> (r: (CacheLookup, CacheRequest))
        ensures
            r.0.var_name()@ == var_name@,
            r.0.phase() matches CachePhase::AwaitDir { cache_dir } && cache_dir@ == joined_path(
                out_dir@,
                "vcvars-cache"@,
            ),
            r.1 matches CacheRequest::EnsureDir(d) && d@ == joined_path(
                out_dir@,
                "vcvars-cache"@,
            ),
    {
        let cache_dir = join_path(out_dir, "vcvars-cache");
        let req = CacheRequest::EnsureDir(cache_dir.clone());
        let lookup = CacheLookup {
            var_name: var_name.to_owned(),
            phase: CachePhase::AwaitDir { cache_dir },
        };
        (lookup, req)
    }

    /// Feeds the outcome of the pending request back and advances one step.
    pub fn resume(&mut self, response: CacheResponse) -> (r: Result<CacheOutcome, VcvarsError>)
        requires
            old(self).phase().expects(response),
        ensures
            cache_resume_spec(*old(self), response, *final(self), r),
    {
        let mut ph = CachePhase::Finished;
        core::mem::swap(&mut ph, &mut self.phase);
        match (ph, response) {
            (CachePhase::AwaitDir { cache_dir }, CacheResponse::DirEnsured(res)) => {
                match res {
                    Err(e) => Err(VcvarsError::CacheFailed(cache_dir, e)),
                    Ok(_) => {
                        let file_name = sanitize_filename(
                            &self.var_name.clone().concat(".txt"),
                        );
                        let cache_file = join_path(cache_dir.as_str(), file_name.as_str());
                        let req = CacheRequest::Probe(cache_file.clone());
                        self.phase = CachePhase::AwaitProbe { cache_file };
                        Ok(CacheOutcome::Pending(req))
                    },
                }
            },
            (CachePhase::AwaitProbe { cache_file }, CacheResponse::Probed(present)) => {
                if present {
                    let req = CacheRequest::ReadFile(cache_file.clone());
                    self.phase = CachePhase::AwaitRead { cache_file };
                    Ok(CacheOutcome::Pending(req))
                } else {
                    let req = CacheRequest::NeedValue(self.var_name.clone());
                    self.phase = CachePhase::AwaitValue { cache_file };
                    Ok(CacheOutcome::Pending(req))
                }
            },
            (CachePhase::AwaitRead { cache_file }, CacheResponse::ReadDone(res)) => {
                match res {
                    Ok(v) => Ok(CacheOutcome::Done(v)),
                    Err(e) => Err(VcvarsError::CacheFailed(cache_file, e)),
                }
            },
            (CachePhase::AwaitValue { cache_file }, CacheResponse::ValueIs(res)) => {
                match res {
                    Ok(v) => {
                        let req = CacheRequest::WriteFile(cache_file.clone(), v.clone());
                        self.phase = CachePhase::AwaitWrite { cache_file, value: v };
                        Ok(CacheOutcome::Pending(req))
                    },
                    Err(e) => Err(e),
                }
            },
            (CachePhase::AwaitWrite { cache_file, value }, CacheResponse::WriteDone(res)) => {
                match res {
                    Ok(_) => Ok(CacheOutcome::Done(value)),
                    Err(e) => Err(VcvarsError::CacheFailed(cache_file, e)),
                }
            },
            // `expects` rules every other combination out.
            _ => vstd::pervasive::unreached(),
        }
    }
}

// ---------------------------------------------------------------------------
// Laws
// ---------------------------------------------------------------------------

/// What a lookup answers, given the disk's contents at the cache file's
/// path and what the resolver would answer on a miss.
pub open spec fn cache_value(
    disk: Map<Seq<char>, Seq<char>>,
    path: Seq<char>,
    fetched: Result<Seq<char>, VcvarsError>,
) -> Result<Seq<char>, VcvarsError> {
    if disk.contains_key(path) {
        Ok(disk[path])
    } else {
        fetched
    }
}

/// The disk after a lookup: only a miss with a value in hand writes, and a
/// hit or a failed resolution leaves the disk as it was.
pub open spec fn cache_after(
    disk: Map<Seq<char>, Seq<char>>,
    path: Seq<char>,
    fetched: Result<Seq<char>, VcvarsError>,
) -> Map<Seq<char>, Seq<char>> {
    if disk.contains_key(path) {
        disk
    } else {
        match fetched {
            Ok(v) => disk.insert(path, v),
            Err(_) => disk,
        }
    }
}

/// Cold-then-warm agreement: a lookup on a cold cache returns the freshly
/// resolved value and persists it, and a later lookup of the same variable
/// against the now-populated cache returns the identical value — without
/// consulting the resolver and without changing the disk again.
pub proof fn lemma_cache_round_trip(
    disk: Map<Seq<char>, Seq<char>>,
    path: Seq<char>,
    v: Seq<char>,
    refetched: Result<Seq<char>, VcvarsError>,
)
    requires
        !disk.contains_key(path),
    ensures
        cache_value(disk, path, Ok(v)) == Ok::<Seq<char>, VcvarsError>(v),
        cache_value(cache_after(disk, path, Ok(v)), path, refetched) == Ok::<
            Seq<char>,
            VcvarsError,
        >(v),
        cache_after(cache_after(disk, path, Ok(v)), path, refetched) == cache_after(
            disk,
            path,
            Ok(v),
        ),
{
}

/// A lookup whose answers are drawn faithfully from a disk `d` follows
/// `cache_value` / `cache_after` — the hit path: the file is on the disk,
/// the probe leads to a read, and the read hands back the disk's contents,
/// which the lookup returns; the disk is untouched, whatever the resolver
/// would have answered.
pub proof fn lemma_hit_follows_disk(
    d: Map<Seq<char>, Seq<char>>,
    s1: CacheLookup,
    s2: CacheLookup,
    s3: CacheLookup,
    rv: String,
    r1: Result<CacheOutcome, VcvarsError>,
    r2: Result<CacheOutcome, VcvarsError>,
    fetched: Result<Seq<char>, VcvarsError>,
)
    requires
        s1.phase() matches CachePhase::AwaitProbe { cache_file } && d.contains_key(cache_file@),
        cache_resume_spec(s1, CacheResponse::Probed(true), s2, r1),
        cache_resume_spec(s2, CacheResponse::ReadDone(Ok(rv)), s3, r2),
        s1.phase() matches CachePhase::AwaitProbe { cache_file } && rv@ == d[cache_file@],
    ensures
        r2 matches Ok(CacheOutcome::Done(v)) && Ok::<Seq<char>, VcvarsError>(v@) == cache_value(
            d,
            (s1.phase()->AwaitProbe_cache_file)@,
            fetched,
        ),
        cache_after(d, (s1.phase()->AwaitProbe_cache_file)@, fetched) == d,
{
}

/// The miss path with a value in hand: the file is not on the disk, the
/// probe leads to the resolver, the value is written to the cache file
/// before it is returned, and the disk afterwards holds it there.
pub proof fn lemma_miss_value_persisted(
    d: Map<Seq<char>, Seq<char>>,
    s1: CacheLookup,
    s2: CacheLookup,
    s3: CacheLookup,
    s4: CacheLookup,
    v: String,
    r1: Result<CacheOutcome, VcvarsError>,
    r2: Result<CacheOutcome, VcvarsError>,
    r3: Result<CacheOutcome, VcvarsError>,
)
    requires
        s1.phase() matches CachePhase::AwaitProbe { cache_file } && !d.contains_key(cache_file@),
        cache_resume_spec(s1, CacheResponse::Probed(false), s2, r1),
        cache_resume_spec(s2, CacheResponse::ValueIs(Ok(v)), s3, r2),
        cache_resume_spec(s3, CacheResponse::WriteDone(Ok(())), s4, r3),
    ensures
        r2 matches Ok(CacheOutcome::Pending(CacheRequest::WriteFile(p, w))) && p@ == (s1.phase()
            ->AwaitProbe_cache_file)@ && w@ == v@,
        r3 matches Ok(CacheOutcome::Done(w)) && Ok::<Seq<char>, VcvarsError>(w@) == cache_value(
            d,
            (s1.phase()->AwaitProbe_cache_file)@,
            Ok(v@),
        ),
        cache_after(d, (s1.phase()->AwaitProbe_cache_file)@, Ok(v@)) == d.insert(
            (s1.phase()->AwaitProbe_cache_file)@,
            v@,
        ),
{
}

/// The miss path with a resolver failure: the failure is handed through
/// unchanged, no write request is ever issued, and the disk keeps exactly
/// its old contents.
pub proof fn lemma_miss_failure_writes_nothing(
    d: Map<Seq<char>, Seq<char>>,
    s1: CacheLookup,
    s2: CacheLookup,
    s3: CacheLookup,
    e: VcvarsError,
    r1: Result<CacheOutcome, VcvarsError>,
    r2: Result<CacheOutcome, VcvarsError>,
)
    requires
        s1.phase() matches CachePhase::AwaitProbe { cache_file } && !d.contains_key(cache_file@),
        cache_resume_spec(s1, CacheResponse::Probed(false), s2, r1),
        cache_resume_spec(s2, CacheResponse::ValueIs(Err(e)), s3, r2),
    ensures
        r2 == Err::<CacheOutcome, VcvarsError>(e),
        cache_value(d, (s1.phase()->AwaitProbe_cache_file)@, Err(e)) == Err::<
            Seq<char>,
            VcvarsError,
        >(e),
        cache_after(d, (s1.phase()->AwaitProbe_cache_file)@, Err(e)) == d,
{
}

/// A hit never consults the resolver: with the cache file present, the
/// probe step's next request reads the file — it is not `NeedValue`.
pub proof fn lemma_hit_skips_resolver(
    pre: CacheLookup,
    resp: CacheResponse,
    post: CacheLookup,
    r: Result<CacheOutcome, VcvarsError>,
)
    requires
        cache_resume_spec(pre, resp, post, r),
        pre.phase() matches CachePhase::AwaitProbe { .. },
        resp matches CacheResponse::Probed(true),
    ensures
        r matches Ok(CacheOutcome::Pending(CacheRequest::ReadFile(p))) && (pre.phase()
            matches CachePhase::AwaitProbe { cache_file } && p@ == cache_file@),
        !(r matches Ok(CacheOutcome::Pending(CacheRequest::NeedValue(..)))),
{
}

} // verus!
