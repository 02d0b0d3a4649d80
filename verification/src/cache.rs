//! The cache store: decides from the sidecar metadata and the freshly
//! resolved digest whether a previously fetched binary may be reused, and
//! plans the eviction that keeps only the newest version directory. The
//! filesystem reads and deletions themselves stay with the caller.

use vstd::prelude::*;

use crate::release::opt_view;
use crate::text::names_view;

verus! {

/// The metadata format version written beside a fetched binary.
pub const CACHE_METADATA_VERSION: u64 = 1;

/// The sidecar metadata persisted beside an extracted binary: a format
/// version and the digest that was expected at the time of the write.
pub struct CacheRecord {
    /// The metadata format version.
    pub metadata_version: u64,
    /// The digest the artifact was verified against, if one was known.
    pub digest: Option<String>,
}

impl CacheRecord {
    /// The record persisted after a successful acquisition.
    pub fn new(digest: Option<String>) -> (r: CacheRecord)
        ensures
            r.metadata_version == CACHE_METADATA_VERSION,
            r.digest == digest,
    {
        CacheRecord { metadata_version: CACHE_METADATA_VERSION, digest }
    }
}

/// What the sidecar metadata says about a cached binary: try its
/// liveness check, or throw it away and download afresh.
#[derive(Clone, Copy, Debug, PartialEq, Eq, Structural)]
pub enum CacheValidation {
    /// The digests agree, or no digest is available on one side: run the
    /// liveness check and reuse the binary if it passes.
    RunLivenessCheck,
    /// The cache is missing or its digest is known to be wrong: never
    /// trust it.
    Redownload,
}

/// The final verdict on a cached binary.
#[derive(Clone, Copy, Debug, PartialEq, Eq, Structural)]
pub enum CacheDecision {
    /// Reuse the cached binary as it is.
    UseCached,
    /// Fetch the archive again.
    Download,
}

/// The validation verdict for a cache probe: a missing record or a
/// digest mismatch means download; matching digests, or digests that are
/// unavailable on either side, defer to the liveness check.
pub open spec fn validation_spec(record: Option<CacheRecord>, expected: Option<Seq<char>>) -> CacheValidation {
    match record {
        None => CacheValidation::Redownload,
        Some(rec) => match (opt_view(rec.digest), expected) {
            (Some(recorded), Some(exp)) => if recorded == exp {
                CacheValidation::RunLivenessCheck
            } else {
                CacheValidation::Redownload
            },
            _ => CacheValidation::RunLivenessCheck,
        },
    }
}

/// The decision once the liveness check (run only when validation asked
/// for it) has spoken: reuse exactly a validated, live binary.
pub open spec fn decision_spec(v: CacheValidation, alive: bool) -> CacheDecision {
    if v is RunLivenessCheck && alive {
        CacheDecision::UseCached
    } else {
        CacheDecision::Download
    }
}

/// The whole cache verdict, validation and liveness check composed.
pub open spec fn cache_decision_spec(
    record: Option<CacheRecord>,
    expected: Option<Seq<char>>,
    alive: bool,
) -> CacheDecision {
    decision_spec(validation_spec(record, expected), alive)
}

/// Decides from the sidecar metadata and the expected digest whether the
/// cached binary must be thrown away outright or may face its liveness
/// check.
pub fn plan_validation(record: &Option<CacheRecord>, expected: &Option<String>) -> (p:
    CacheValidation)
    ensures
        p == validation_spec(*record, opt_view(*expected)),
{
    match record {
        None => CacheValidation::Redownload,
        Some(rec) => match (&rec.digest, expected) {
            (Some(recorded), Some(exp)) => if recorded.eq(exp) {
                CacheValidation::RunLivenessCheck
            } else {
                CacheValidation::Redownload
            },
            _ => CacheValidation::RunLivenessCheck,
        },
    }
}

/// Turns the validation verdict and the liveness-check outcome into the
/// final decision.
pub fn resolve_liveness(v: CacheValidation, alive: bool) -> (d: CacheDecision)
    ensures
        d == decision_spec(v, alive),
{
    match v {
        CacheValidation::RunLivenessCheck => if alive {
            CacheDecision::UseCached
        } else {
            CacheDecision::Download
        },
        CacheValidation::Redownload => CacheDecision::Download,
    }
}

/// A recorded digest that matches the freshly resolved expected digest,
/// on a binary whose liveness check passes, reuses the cache: repeated
/// acquisitions download nothing.
pub proof fn lemma_matching_digest_reuses_cache(record: CacheRecord, expected: Seq<char>)
    requires
        record.digest matches Some(d) && d@ == expected,
    ensures
        validation_spec(Some(record), Some(expected)) is RunLivenessCheck,
        cache_decision_spec(Some(record), Some(expected), true) is UseCached,
{
}

/// A recorded digest that differs from the expected digest forces a
/// re-download, whatever the liveness check would have said.
pub proof fn lemma_digest_mismatch_redownloads(record: CacheRecord, expected: Seq<char>, alive: bool)
    requires
        record.digest matches Some(d) && d@ != expected,
    ensures
        validation_spec(Some(record), Some(expected)) is Redownload,
        cache_decision_spec(Some(record), Some(expected), alive) is Download,
{
}

// ---------------------------------------------------------------------
// Eviction: retain only the newest version directory.
// ---------------------------------------------------------------------
/// The entries the eviction deletes: every sibling of `keep`, in listing
/// order.
pub open spec fn eviction_plan_spec(entries: Seq<Seq<char>>, keep: Seq<char>) -> Seq<Seq<char>>
    decreases entries.len(),
{
    if entries.len() == 0 {
        Seq::empty()
    } else {
        let rest = eviction_plan_spec(entries.drop_last(), keep);
        if entries.last() != keep {
            rest.push(entries.last())
        } else {
            rest
        }
    }
}

/// What a directory holds after the planned deletions are performed.
pub open spec fn remaining_after(entries: Seq<Seq<char>>, doomed: Seq<Seq<char>>) -> Seq<Seq<char>>
    decreases entries.len(),
{
    if entries.len() == 0 {
        Seq::empty()
    } else {
        let rest = remaining_after(entries.drop_last(), doomed);
        if doomed.contains(entries.last()) {
            rest
        } else {
            rest.push(entries.last())
        }
    }
}

proof fn lemma_contains_push(s: Seq<Seq<char>>, y: Seq<char>, x: Seq<char>)
    ensures
        s.push(y).contains(x) <==> s.contains(x) || x == y,
{
    if s.push(y).contains(x) {
        let i = choose|i: int| 0 <= i < s.push(y).len() && s.push(y)[i] == x;
        if i < s.len() {
            assert(s[i] == x);
        }
    }
    if s.contains(x) {
        let i = choose|i: int| 0 <= i < s.len() && s[i] == x;
        assert(s.push(y)[i] == x);
    }
    if x == y {
        assert(s.push(y)[s.len() as int] == x);
    }
}

/// The plan holds exactly the listed entries other than `keep`.
pub proof fn lemma_eviction_plan_membership(entries: Seq<Seq<char>>, keep: Seq<char>, x: Seq<char>)
    ensures
        eviction_plan_spec(entries, keep).contains(x) <==> (entries.contains(x) && x != keep),
    decreases entries.len(),
{
    if entries.len() == 0 {
        assert(!eviction_plan_spec(entries, keep).contains(x));
        assert(!entries.contains(x));
    } else {
        let dl = entries.drop_last();
        lemma_eviction_plan_membership(dl, keep, x);
        if entries.last() != keep {
            lemma_contains_push(eviction_plan_spec(dl, keep), entries.last(), x);
        }
        assert(entries =~= dl.push(entries.last()));
        lemma_contains_push(dl, entries.last(), x);
    }
}

proof fn lemma_remaining_none_survive(part: Seq<Seq<char>>, doomed: Seq<Seq<char>>)
    requires
        forall|i: int| 0 <= i < part.len() ==> doomed.contains(#[trigger] part[i]),
    ensures
        remaining_after(part, doomed).len() == 0,
    decreases part.len(),
{
    if part.len() > 0 {
        assert(doomed.contains(part.last()));
        let dl = part.drop_last();
        assert forall|i: int| 0 <= i < dl.len() implies doomed.contains(#[trigger] dl[i]) by {
            assert(dl[i] == part[i]);
        }
        lemma_remaining_none_survive(dl, doomed);
    }
}

proof fn lemma_remaining_helper(part: Seq<Seq<char>>, doomed: Seq<Seq<char>>, keep: Seq<char>)
    requires
        forall|i: int|
            0 <= i < part.len() ==> (doomed.contains(#[trigger] part[i]) <==> part[i] != keep),
        part.contains(keep),
        part.no_duplicates(),
    ensures
        remaining_after(part, doomed) =~= seq![keep],
    decreases part.len(),
{
    let dl = part.drop_last();
    assert(part.len() > 0);
    if part.last() == keep {
        assert(!doomed.contains(part.last())) by {
            assert(part[part.len() - 1] == keep);
        }
        assert forall|i: int| 0 <= i < dl.len() implies doomed.contains(#[trigger] dl[i]) by {
            assert(dl[i] == part[i]);
            assert(part[i] != part[part.len() - 1]);
        }
        lemma_remaining_none_survive(dl, doomed);
    } else {
        assert(doomed.contains(part.last())) by {
            assert(part[part.len() - 1] == part.last());
        }
        assert(dl.contains(keep)) by {
            let i = choose|i: int| 0 <= i < part.len() && part[i] == keep;
            assert(i < part.len() - 1);
            assert(dl[i] == keep);
        }
        assert forall|i: int|
            0 <= i < dl.len() implies (doomed.contains(#[trigger] dl[i]) <==> dl[i] != keep) by {
            assert(dl[i] == part[i]);
        }
        assert(dl.no_duplicates()) by {
            assert forall|i: int, j: int|
                0 <= i < dl.len() && 0 <= j < dl.len() && i != j implies dl[i] != dl[j] by {
                assert(dl[i] == part[i]);
                assert(dl[j] == part[j]);
            }
        }
        lemma_remaining_helper(dl, doomed, keep);
    }
}

/// Performing the eviction plan on a duplicate-free directory listing
/// that holds the kept entry leaves exactly that one entry: after a
/// successful acquisition a single version directory remains.
pub proof fn lemma_eviction_retains_only_kept(entries: Seq<Seq<char>>, keep: Seq<char>)
    requires
        entries.contains(keep),
        entries.no_duplicates(),
    ensures
        remaining_after(entries, eviction_plan_spec(entries, keep)) =~= seq![keep],
{
    let doomed = eviction_plan_spec(entries, keep);
    assert forall|i: int|
        0 <= i < entries.len() implies (doomed.contains(#[trigger] entries[i]) <==> entries[i]
        != keep) by {
        lemma_eviction_plan_membership(entries, keep, entries[i]);
    }
    lemma_remaining_helper(entries, doomed, keep);
}

/// Lists the sibling entries to delete: everything but `keep`.
pub fn eviction_plan(entries: &Vec<String>, keep: &String) -> (doomed: Vec<String>)
    ensures
        names_view(doomed@) == eviction_plan_spec(names_view(entries@), keep@),
{
    let mut doomed: Vec<String> = Vec::new();
    let mut i: usize = 0;
    while i < entries.len()
        invariant
            i <= entries@.len(),
            names_view(doomed@) == eviction_plan_spec(names_view(entries@.take(i as int)), keep@),
        decreases entries@.len() - i,
    {
        let entry = &entries[i];
        if !entry.eq(keep) {
            doomed.push(entry.clone());
        }
        proof {
            let taken = names_view(entries@.take(i + 1));
            assert(taken.drop_last() =~= names_view(entries@.take(i as int)));
            assert(taken.last() == entries@[i as int]@);
            assert(names_view(doomed@) =~= eviction_plan_spec(taken, keep@));
        }
        i = i + 1;
    }
    proof {
        assert(names_view(entries@.take(entries@.len() as int)) =~= names_view(entries@));
    }
    doomed
}

// ---------------------------------------------------------------------
// The offline cached-binary lookup.
// ---------------------------------------------------------------------
/// One entry of a container-directory listing.
pub struct DirEntry {
    /// The entry's file name.
    pub name: String,
    /// Whether the entry is a subdirectory.
    pub is_dir: bool,
}

/// Position `i` holds the last subdirectory of the listing.
pub open spec fn is_last_dir_index(entries: Seq<DirEntry>, i: int) -> bool {
    &&& 0 <= i < entries.len()
    &&& entries[i].is_dir
    &&& forall|j: int| i < j < entries.len() ==> !entries[j].is_dir
}

/// Picks the version directory a fully offline consumer falls back to:
/// the last subdirectory of the container directory in listing order (a
/// heuristic, not a version comparison); nothing when the container
/// holds no subdirectory at all.
pub fn pick_cached_version_dir(entries: &Vec<DirEntry>) -> (r: Option<usize>)
    ensures
        match r {
            Some(i) => is_last_dir_index(entries@, i as int),
            None => forall|j: int| 0 <= j < entries@.len() ==> !entries@[j].is_dir,
        },
{
    let mut last: Option<usize> = None;
    let mut i: usize = 0;
    while i < entries.len()
        invariant
            i <= entries@.len(),
            match last {
                Some(k) => {
                    &&& k < i
                    &&& entries@[k as int].is_dir
                    &&& forall|j: int| k < j < i ==> !entries@[j].is_dir
                },
                None => forall|j: int| 0 <= j < i ==> !entries@[j].is_dir,
            },
        decreases entries@.len() - i,
    {
        if entries[i].is_dir {
            last = Some(i);
        }
        i = i + 1;
    }
    last
}

} // verus!
