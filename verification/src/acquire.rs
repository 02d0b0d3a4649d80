//! The acquisition engine: turns a resolved toolchain version into a
//! runnable binary. Each call is one pass of a fixed pipeline — probe the
//! cache, maybe run the liveness check, download and verify, locate the
//! binary inside the extracted tree, promote it into its version
//! directory, evict every older version, persist the cache record, and
//! finish the install. The pipeline's decisions live here as a state
//! machine; the caller performs each requested action (a read, a
//! download, a deletion) and hands the outcome back as an event.

use vstd::prelude::*;

use crate::cache::CacheRecord;
use crate::cache::CacheValidation;
use crate::cache::validation_spec;
use crate::release::ToolchainVersion;
use crate::release::opt_view;
use crate::text::ends_with_seq;
use crate::text::ends_with_vec;
use crate::text::to_char_vec;
use vstd::string::StringExecFns;

verus! {

/// Why an acquisition failed.
#[derive(Clone, Copy, Debug, PartialEq, Eq, Structural)]
pub enum AcquireError {
    /// The archive transfer itself failed.
    DownloadFailed,
    /// The transferred archive's digest differs from the advertised one.
    DigestMismatch,
    /// The archive could not be unpacked.
    ExtractionFailed,
    /// No server binary exists inside the extracted tree.
    BinaryNotFound,
    /// A filesystem step of the promotion failed.
    IoFailed,
}

impl AcquireError {
    /// A short description of the failure.
    pub fn message(&self) -> (m: &'static str)
        ensures
            m@.len() > 0,
    {
        let m = match self {
            AcquireError::DownloadFailed => "failed to download the server archive",
            AcquireError::DigestMismatch => "downloaded archive does not match the advertised digest",
            AcquireError::ExtractionFailed => "failed to unpack the server archive",
            AcquireError::BinaryNotFound => "failed to find the server binary in the extracted archive",
            AcquireError::IoFailed => "failed to move the server binary into place",
        };
        proof {
            reveal_strlit("failed to download the server archive");
            reveal_strlit("downloaded archive does not match the advertised digest");
            reveal_strlit("failed to unpack the server archive");
            reveal_strlit("failed to find the server binary in the extracted archive");
            reveal_strlit("failed to move the server binary into place");
        }
        m
    }
}

/// The result of an acquisition: an executable path, the arguments to
/// launch it with, and environment overrides when any are needed.
pub struct BinaryDescriptor {
    /// Absolute path of the executable.
    pub path: String,
    /// Invocation arguments, in order.
    pub arguments: Vec<String>,
    /// Environment overrides; the process environment is inherited when
    /// there are none.
    pub env: Option<Vec<(String, String)>>,
}

/// The descriptor for a binary found on the search path: launched with
/// no arguments and the inherited environment.
pub fn user_installed_binary(path: Option<String>) -> (r: Option<BinaryDescriptor>)
    ensures
        match r {
            Some(b) => {
                &&& path matches Some(p) && b.path == p
                &&& b.arguments@.len() == 0
                &&& b.env is None
            },
            None => path is None,
        },
{
    match path {
        Some(p) => Some(BinaryDescriptor { path: p, arguments: Vec::new(), env: None }),
        None => None,
    }
}

/// The descriptor for a binary installed under the container directory:
/// launched with no arguments and the inherited environment.
pub fn descriptor_for(binary_path: String) -> (b: BinaryDescriptor)
    ensures
        b.path == binary_path,
        b.arguments@.len() == 0,
        b.env is None,
{
    BinaryDescriptor { path: binary_path, arguments: Vec::new(), env: None }
}

/// The name of the version directory for a release tag.
pub fn version_dir_name(tag: &str) -> (r: String)
    ensures
        r@ == "roslyn-"@ + tag@,
{
    let mut r = String::from_str("roslyn-");
    r.append(tag);
    r
}

/// The name of the transient staging directory used while extracting.
pub fn tmp_dir_name(tag: &str) -> (r: String)
    ensures
        r@ == "roslyn-"@ + tag@ + "-tmp"@,
{
    let mut r = String::from_str("roslyn-");
    r.append(tag);
    r.append("-tmp");
    r
}

/// The server binary's file name; on Windows the executable suffix is
/// appended.
pub fn server_binary_name(windows: bool, exe_suffix: &str) -> (r: String)
    ensures
        r@ == if windows {
            "csharp-language-server"@ + exe_suffix@
        } else {
            "csharp-language-server"@
        },
{
    let mut r = String::from_str("csharp-language-server");
    if windows {
        r.append(exe_suffix);
    }
    r
}

/// The two archive container formats an asset comes in.
#[derive(Clone, Copy, Debug, PartialEq, Eq, Structural)]
pub enum ArchiveKind {
    /// A ZIP archive.
    Zip,
    /// A gzip-compressed tar archive.
    TarGz,
}

/// The archive kind a download URL implies: ZIP exactly for a `.zip`
/// suffix, gzip-tar otherwise.
pub open spec fn spec_archive_kind(url: Seq<char>) -> ArchiveKind {
    if ends_with_seq(url, ".zip"@) {
        ArchiveKind::Zip
    } else {
        ArchiveKind::TarGz
    }
}

/// Reads the archive kind off the download URL.
pub fn archive_kind(url: &str) -> (k: ArchiveKind)
    ensures
        k == spec_archive_kind(url@),
{
    let u = to_char_vec(url);
    if ends_with_vec(&u, &to_char_vec(".zip")) {
        ArchiveKind::Zip
    } else {
        ArchiveKind::TarGz
    }
}

/// Whether a transferred artifact passes digest verification: it does
/// whenever the digests agree or either side has none to offer.
pub open spec fn digest_accepted(expected: Option<Seq<char>>, actual: Option<Seq<char>>) -> bool {
    match (expected, actual) {
        (Some(e), Some(a)) => e == a,
        _ => true,
    }
}

/// Checks a transfer's digest against the advertised one; a mismatch is
/// an error, never silently tolerated, while a missing digest on either
/// side passes.
pub fn verify_digest(expected: &Option<String>, actual: &Option<String>) -> (r: Result<
    (),
    AcquireError,
>)
    ensures
        match r {
            Ok(_) => digest_accepted(opt_view(*expected), opt_view(*actual)),
            Err(e) => e is DigestMismatch && !digest_accepted(opt_view(*expected), opt_view(*actual)),
        },
{
    match (expected, actual) {
        (Some(e), Some(a)) => if e.eq(a) {
            Ok(())
        } else {
            Err(AcquireError::DigestMismatch)
        },
        _ => Ok(()),
    }
}

// ---------------------------------------------------------------------
// The acquisition state machine.
// ---------------------------------------------------------------------
/// Where one acquisition stands.
#[derive(Clone, Copy, Debug, PartialEq, Eq, Structural)]
pub enum AcquirePhase {
    /// Reading the sidecar metadata of the candidate version directory.
    ProbeCache,
    /// Running the cached binary's liveness check.
    Liveness,
    /// Downloading the archive into the staging directory.
    Fetch,
    /// Searching the extracted tree for the server binary.
    Locate,
    /// Creating the version directory and copying the binary in.
    Promote,
    /// Deleting every sibling of the version directory.
    Evict,
    /// Persisting the cache record beside the binary.
    WriteRecord,
    /// Setting permissions and spawning the detached warm-up.
    Finish,
    /// The binary is ready.
    Done,
    /// The acquisition failed.
    Failed,
}

/// What the caller reports back after performing an action.
pub enum AcquireEvent {
    /// The sidecar metadata was read, when it exists and parses.
    MetadataRead(Option<CacheRecord>),
    /// Whether the cached binary's liveness check passed.
    LivenessChecked(bool),
    /// The transfer finished, carrying the computed content digest when
    /// one was taken, or failed.
    Downloaded(Result<Option<String>, AcquireError>),
    /// The path of the binary inside the extracted tree, if any.
    BinaryLocated(Option<String>),
    /// Whether creating the version directory and copying succeeded.
    Promoted(Result<(), AcquireError>),
    /// The sibling deletions were performed.
    Evicted,
    /// Whether the cache record was persisted.
    RecordWritten(Result<(), AcquireError>),
    /// Permissions are set and the warm-up is spawned.
    Finished,
}

/// What the caller must do next.
pub enum AcquireAction {
    /// Read the sidecar metadata of the version directory.
    ReadMetadata,
    /// Run the cached binary with its version-printing argument.
    RunLivenessCheck,
    /// Download and unpack the archive of the given kind into the
    /// staging directory.
    DownloadArchive(ArchiveKind),
    /// Search the staging directory for the server binary.
    LocateBinary,
    /// Create the version directory and copy the located binary into it.
    PromoteBinary(String),
    /// Delete every sibling of the version directory.
    EvictSiblings,
    /// Persist the cache record beside the binary.
    PersistRecord(CacheRecord),
    /// Make the binary executable and spawn the detached best-effort
    /// warm-up, whose outcome is discarded.
    FinishInstall,
    /// Hand the finished binary's descriptor to the consumer.
    Deliver,
    /// Give up with the error.
    Abort(AcquireError),
}

/// The event each phase waits for.
pub open spec fn expected_event(p: AcquirePhase, e: AcquireEvent) -> bool {
    match p {
        AcquirePhase::ProbeCache => e is MetadataRead,
        AcquirePhase::Liveness => e is LivenessChecked,
        AcquirePhase::Fetch => e is Downloaded,
        AcquirePhase::Locate => e is BinaryLocated,
        AcquirePhase::Promote => e is Promoted,
        AcquirePhase::Evict => e is Evicted,
        AcquirePhase::WriteRecord => e is RecordWritten,
        AcquirePhase::Finish => e is Finished,
        AcquirePhase::Done => false,
        AcquirePhase::Failed => false,
    }
}

/// The phase an event moves the pipeline to, given the expected digest
/// of the resolved version.
pub open spec fn phase_after(p: AcquirePhase, expected: Option<Seq<char>>, e: AcquireEvent) -> AcquirePhase {
    match (p, e) {
        (AcquirePhase::ProbeCache, AcquireEvent::MetadataRead(rec)) => if validation_spec(
            rec,
            expected,
        ) is RunLivenessCheck {
            AcquirePhase::Liveness
        } else {
            AcquirePhase::Fetch
        },
        (AcquirePhase::Liveness, AcquireEvent::LivenessChecked(alive)) => if alive {
            AcquirePhase::Done
        } else {
            AcquirePhase::Fetch
        },
        (AcquirePhase::Fetch, AcquireEvent::Downloaded(r)) => match r {
            Ok(actual) => if digest_accepted(expected, opt_view(actual)) {
                AcquirePhase::Locate
            } else {
                AcquirePhase::Failed
            },
            Err(_) => AcquirePhase::Failed,
        },
        (AcquirePhase::Locate, AcquireEvent::BinaryLocated(found)) => if found is Some {
            AcquirePhase::Promote
        } else {
            AcquirePhase::Failed
        },
        (AcquirePhase::Promote, AcquireEvent::Promoted(r)) => if r is Ok {
            AcquirePhase::Evict
        } else {
            AcquirePhase::Failed
        },
        (AcquirePhase::Evict, AcquireEvent::Evicted) => AcquirePhase::WriteRecord,
        (AcquirePhase::WriteRecord, AcquireEvent::RecordWritten(r)) => if r is Ok {
            AcquirePhase::Finish
        } else {
            AcquirePhase::Failed
        },
        (AcquirePhase::Finish, AcquireEvent::Finished) => AcquirePhase::Done,
        _ => AcquirePhase::Failed,
    }
}

/// One acquisition in flight: the resolved version and where the
/// pipeline stands.
pub struct Acquisition {
    /// The resolved version being acquired.
    pub version: ToolchainVersion,
    /// The pipeline's phase.
    pub phase: AcquirePhase,
}

impl Acquisition {
    /// Starts an acquisition of the resolved version.
    pub fn new(version: ToolchainVersion) -> (m: Acquisition)
        ensures
            m.version == version,
            m.phase is ProbeCache,
    {
        Acquisition { version, phase: AcquirePhase::ProbeCache }
    }

    /// The pipeline's first request: read the sidecar metadata.
    pub fn initial_action(&self) -> (a: AcquireAction)
        requires
            self.phase is ProbeCache,
        ensures
            a is ReadMetadata,
    {
        AcquireAction::ReadMetadata
    }

    /// Feeds the outcome of the last action back in and says what to do
    /// next. The cache verdict follows the cache store's validation; a
    /// digest mismatch aborts; eviction follows promotion; the persisted
    /// record carries the expected digest.
    pub fn on_event(&mut self, e: AcquireEvent) -> (a: AcquireAction)
        requires
            expected_event(old(self).phase, e),
        ensures
            final(self).version == old(self).version,
            final(self).phase == phase_after(old(self).phase, opt_view(old(self).version.digest), e),
            match old(self).phase {
                AcquirePhase::ProbeCache => if final(self).phase is Liveness {
                    a is RunLivenessCheck
                } else {
                    a matches AcquireAction::DownloadArchive(k) && k == spec_archive_kind(
                        old(self).version.url@,
                    )
                },
                AcquirePhase::Liveness => if final(self).phase is Done {
                    a is Deliver
                } else {
                    a matches AcquireAction::DownloadArchive(k) && k == spec_archive_kind(
                        old(self).version.url@,
                    )
                },
                AcquirePhase::Fetch => match e {
                    AcquireEvent::Downloaded(r) => match r {
                        Ok(actual) => if digest_accepted(
                            opt_view(old(self).version.digest),
                            opt_view(actual),
                        ) {
                            a is LocateBinary
                        } else {
                            a matches AcquireAction::Abort(err) && err is DigestMismatch
                        },
                        Err(err) => a matches AcquireAction::Abort(err2) && err2 == err,
                    },
                    _ => false,
                },
                AcquirePhase::Locate => match e {
                    AcquireEvent::BinaryLocated(found) => match found {
                        Some(p) => a matches AcquireAction::PromoteBinary(q) && q == p,
                        None => a matches AcquireAction::Abort(err) && err is BinaryNotFound,
                    },
                    _ => false,
                },
                AcquirePhase::Promote => match e {
                    AcquireEvent::Promoted(r) => match r {
                        Ok(_) => a is EvictSiblings,
                        Err(err) => a matches AcquireAction::Abort(err2) && err2 == err,
                    },
                    _ => false,
                },
                AcquirePhase::Evict => a matches AcquireAction::PersistRecord(rec)
                    && rec.metadata_version == crate::cache::CACHE_METADATA_VERSION && opt_view(
                    rec.digest,
                ) == opt_view(old(self).version.digest),
                AcquirePhase::WriteRecord => match e {
                    AcquireEvent::RecordWritten(r) => match r {
                        Ok(_) => a is FinishInstall,
                        Err(err) => a matches AcquireAction::Abort(err2) && err2 == err,
                    },
                    _ => false,
                },
                AcquirePhase::Finish => a is Deliver,
                _ => false,
            },
    {
        match e {
            AcquireEvent::MetadataRead(rec) => {
                let verdict = crate::cache::plan_validation(&rec, &self.version.digest);
                match verdict {
                    CacheValidation::RunLivenessCheck => {
                        self.phase = AcquirePhase::Liveness;
                        AcquireAction::RunLivenessCheck
                    },
                    CacheValidation::Redownload => {
                        self.phase = AcquirePhase::Fetch;
                        AcquireAction::DownloadArchive(archive_kind(self.version.url.as_str()))
                    },
                }
            },
            AcquireEvent::LivenessChecked(alive) => {
                if alive {
                    self.phase = AcquirePhase::Done;
                    AcquireAction::Deliver
                } else {
                    self.phase = AcquirePhase::Fetch;
                    AcquireAction::DownloadArchive(archive_kind(self.version.url.as_str()))
                }
            },
            AcquireEvent::Downloaded(r) => {
                match r {
                    Ok(actual) => {
                        match verify_digest(&self.version.digest, &actual) {
                            Ok(_) => {
                                self.phase = AcquirePhase::Locate;
                                AcquireAction::LocateBinary
                            },
                            Err(err) => {
                                self.phase = AcquirePhase::Failed;
                                AcquireAction::Abort(err)
                            },
                        }
                    },
                    Err(err) => {
                        self.phase = AcquirePhase::Failed;
                        AcquireAction::Abort(err)
                    },
                }
            },
            AcquireEvent::BinaryLocated(found) => {
                match found {
                    Some(p) => {
                        self.phase = AcquirePhase::Promote;
                        AcquireAction::PromoteBinary(p)
                    },
                    None => {
                        self.phase = AcquirePhase::Failed;
                        AcquireAction::Abort(AcquireError::BinaryNotFound)
                    },
                }
            },
            AcquireEvent::Promoted(r) => {
                match r {
                    Ok(_) => {
                        self.phase = AcquirePhase::Evict;
                        AcquireAction::EvictSiblings
                    },
                    Err(err) => {
                        self.phase = AcquirePhase::Failed;
                        AcquireAction::Abort(err)
                    },
                }
            },
            AcquireEvent::Evicted => {
                self.phase = AcquirePhase::WriteRecord;
                let digest = match &self.version.digest {
                    Some(d) => Some(d.clone()),
                    None => None,
                };
                AcquireAction::PersistRecord(CacheRecord::new(digest))
            },
            AcquireEvent::RecordWritten(r) => {
                match r {
                    Ok(_) => {
                        self.phase = AcquirePhase::Finish;
                        AcquireAction::FinishInstall
                    },
                    Err(err) => {
                        self.phase = AcquirePhase::Failed;
                        AcquireAction::Abort(err)
                    },
                }
            },
            AcquireEvent::Finished => {
                self.phase = AcquirePhase::Done;
                AcquireAction::Deliver
            },
        }
    }
}

/// A cached binary whose metadata passes validation and whose liveness
/// check succeeds carries the pipeline straight to completion: no
/// download phase is ever entered.
pub proof fn lemma_trace_cache_reuse(rec: CacheRecord, expected: Option<Seq<char>>)
    requires
        validation_spec(Some(rec), expected) is RunLivenessCheck,
    ensures
        phase_after(AcquirePhase::ProbeCache, expected, AcquireEvent::MetadataRead(Some(rec)))
            is Liveness,
        phase_after(AcquirePhase::Liveness, expected, AcquireEvent::LivenessChecked(true)) is Done,
{
}

/// The record persisted by a successful acquisition carries the expected
/// digest, so the next acquisition of the same version validates it and,
/// as long as the binary stays live, finishes without downloading:
/// repeated acquisition calls are idempotent.
pub proof fn lemma_repeated_acquisition_reuses(rec: CacheRecord, expected: Option<Seq<char>>)
    requires
        opt_view(rec.digest) == expected,
    ensures
        phase_after(AcquirePhase::ProbeCache, expected, AcquireEvent::MetadataRead(Some(rec)))
            is Liveness,
        phase_after(AcquirePhase::Liveness, expected, AcquireEvent::LivenessChecked(true)) is Done,
{
}

/// A recorded digest that differs from the expected digest sends the
/// pipeline to the download phase directly: the liveness check is never
/// consulted, whatever it would have said.
pub proof fn lemma_trace_mismatch_redownloads(rec: CacheRecord, expected: Seq<char>)
    requires
        rec.digest matches Some(d) && d@ != expected,
    ensures
        phase_after(
            AcquirePhase::ProbeCache,
            Some(expected),
            AcquireEvent::MetadataRead(Some(rec)),
        ) is Fetch,
{
}

} // verus!
