//! The version resolver: picks the release asset matching the running
//! platform out of a release-index entry, or reads the latest version out
//! of a package-feed search result. Only the decisions live here; the
//! network call and the subprocess that produce the inputs stay with the
//! caller.

use vstd::prelude::*;

use crate::json::first_package_version_of;
use crate::json::json_first_package_version;
use crate::text::chars_to_string;
use crate::text::to_char_vec;
use crate::text::trim_spec;
use crate::text::trim_vec;
use crate::text::vec_eq;
use vstd::string::StringExecFns;

verus! {

/// Why no toolchain version could be resolved.
#[derive(Clone, Copy, Debug, PartialEq, Eq, Structural)]
pub enum ResolutionError {
    /// The CPU architecture has no published asset.
    UnsupportedArch,
    /// The operating system has no published asset.
    UnsupportedOs,
    /// The release lists no asset under the expected name.
    NoMatchingAsset,
    /// The package-feed search command failed outright.
    FeedUnavailable,
    /// The search result does not carry a usable version field.
    VersionFieldMissing,
}

impl ResolutionError {
    /// A short description of the failure.
    pub fn message(&self) -> (m: &'static str)
        ensures
            m@.len() > 0,
    {
        let m = match self {
            ResolutionError::UnsupportedArch => "unsupported architecture",
            ResolutionError::UnsupportedOs => "running on unsupported os",
            ResolutionError::NoMatchingAsset => "no asset found matching the expected name",
            ResolutionError::FeedUnavailable => "package feed search failed",
            ResolutionError::VersionFieldMissing => "no version field in the search result",
        };
        proof {
            reveal_strlit("unsupported architecture");
            reveal_strlit("running on unsupported os");
            reveal_strlit("no asset found matching the expected name");
            reveal_strlit("package feed search failed");
            reveal_strlit("no version field in the search result");
        }
        m
    }
}

/// One downloadable asset of a release-index entry.
pub struct ReleaseAsset {
    /// The asset's file name.
    pub name: String,
    /// Where the asset can be fetched.
    pub download_url: String,
    /// The content digest the index advertises, if any.
    pub digest: Option<String>,
}

/// One release-index entry: a tagged release and its assets.
pub struct Release {
    /// The release's tag.
    pub tag_name: String,
    /// The downloadable assets, in index order.
    pub assets: Vec<ReleaseAsset>,
}

/// The resolved toolchain version: a tag, where to fetch it, and the
/// advertised content digest when the index supplies one.
pub struct ToolchainVersion {
    /// The version tag.
    pub name: String,
    /// The download URL of the platform's asset.
    pub url: String,
    /// The advertised content digest, if any.
    pub digest: Option<String>,
}

/// The character sequences of an optional string.
pub open spec fn opt_view(o: Option<String>) -> Option<Seq<char>> {
    match o {
        Some(s) => Some(s@),
        None => None,
    }
}

/// The CPU architectures a release asset exists for.
pub open spec fn supported_arch(arch: Seq<char>) -> bool {
    arch == "aarch64"@ || arch == "x86_64"@
}

/// The operating systems a release asset exists for.
pub open spec fn supported_os(os: Seq<char>) -> bool {
    os == "macos"@ || os == "linux"@ || os == "windows"@
}

/// The target-triple fragment an operating system name maps to.
pub open spec fn os_token(os: Seq<char>) -> Seq<char> {
    if os == "macos"@ {
        "apple-darwin"@
    } else if os == "linux"@ {
        "unknown-linux-gnu"@
    } else {
        "pc-windows-msvc"@
    }
}

/// The archive extension for an operating system: ZIP on Windows,
/// gzip-tar elsewhere.
pub open spec fn ext_token(os: Seq<char>) -> Seq<char> {
    if os == "windows"@ {
        "zip"@
    } else {
        "tar.gz"@
    }
}

/// The asset name a platform maps to:
/// `csharp-language-server-{arch}-{os}.{ext}`; nothing for an unsupported
/// platform.
pub open spec fn asset_name_spec(os: Seq<char>, arch: Seq<char>) -> Option<Seq<char>> {
    if supported_arch(arch) && supported_os(os) {
        Some("csharp-language-server-"@ + arch + "-"@ + os_token(os) + "."@ + ext_token(os))
    } else {
        None
    }
}

/// Asset-name construction is total on supported platforms, determined by
/// the platform pair alone, and refuses every unsupported pair outright,
/// before anything is fetched.
pub proof fn lemma_asset_name_total(os: Seq<char>, arch: Seq<char>)
    ensures
        asset_name_spec(os, arch) is Some <==> supported_arch(arch) && supported_os(os),
{
}

/// Builds the asset name for a platform, or says which half of the
/// platform pair is unsupported; the architecture is checked first.
pub fn asset_name(os: &str, arch: &str) -> (r: Result<String, ResolutionError>)
    ensures
        match r {
            Ok(name) => asset_name_spec(os@, arch@) == Some(name@),
            Err(e) => asset_name_spec(os@, arch@) is None && match e {
                ResolutionError::UnsupportedArch => !supported_arch(arch@),
                ResolutionError::UnsupportedOs => supported_arch(arch@) && !supported_os(os@),
                _ => false,
            },
        },
{
    let archv = to_char_vec(arch);
    let osv = to_char_vec(os);
    let arch_ok = vec_eq(&archv, &to_char_vec("aarch64")) || vec_eq(&archv, &to_char_vec("x86_64"));
    if !arch_ok {
        return Err(ResolutionError::UnsupportedArch);
    }
    let is_macos = vec_eq(&osv, &to_char_vec("macos"));
    let is_linux = vec_eq(&osv, &to_char_vec("linux"));
    let is_windows = vec_eq(&osv, &to_char_vec("windows"));
    if !is_macos && !is_linux && !is_windows {
        return Err(ResolutionError::UnsupportedOs);
    }
    let mut name = String::from_str("csharp-language-server-");
    name.append(arch);
    name.append("-");
    if is_macos {
        name.append("apple-darwin");
    } else if is_linux {
        name.append("unknown-linux-gnu");
    } else {
        name.append("pc-windows-msvc");
    }
    name.append(".");
    if is_windows {
        name.append("zip");
    } else {
        name.append("tar.gz");
    }
    proof {
        assert(name@ =~= "csharp-language-server-"@ + arch@ + "-"@ + os_token(os@) + "."@
            + ext_token(os@));
    }
    Ok(name)
}


/// The six supported platform pairs map to exactly these asset names.
pub proof fn lemma_asset_name_values()
    ensures
        asset_name_spec("linux"@, "x86_64"@) == Some(
            "csharp-language-server-x86_64-unknown-linux-gnu.tar.gz"@,
        ),
        asset_name_spec("linux"@, "aarch64"@) == Some(
            "csharp-language-server-aarch64-unknown-linux-gnu.tar.gz"@,
        ),
        asset_name_spec("macos"@, "x86_64"@) == Some(
            "csharp-language-server-x86_64-apple-darwin.tar.gz"@,
        ),
        asset_name_spec("macos"@, "aarch64"@) == Some(
            "csharp-language-server-aarch64-apple-darwin.tar.gz"@,
        ),
        asset_name_spec("windows"@, "x86_64"@) == Some(
            "csharp-language-server-x86_64-pc-windows-msvc.zip"@,
        ),
        asset_name_spec("windows"@, "aarch64"@) == Some(
            "csharp-language-server-aarch64-pc-windows-msvc.zip"@,
        ),
{
    reveal_strlit("linux");
    reveal_strlit("macos");
    reveal_strlit("windows");
    reveal_strlit("x86_64");
    reveal_strlit("aarch64");
    reveal_strlit("csharp-language-server-");
    reveal_strlit("-");
    reveal_strlit(".");
    reveal_strlit("apple-darwin");
    reveal_strlit("unknown-linux-gnu");
    reveal_strlit("pc-windows-msvc");
    reveal_strlit("zip");
    reveal_strlit("tar.gz");
    reveal_strlit("csharp-language-server-x86_64-unknown-linux-gnu.tar.gz");
    reveal_strlit("csharp-language-server-aarch64-unknown-linux-gnu.tar.gz");
    reveal_strlit("csharp-language-server-x86_64-apple-darwin.tar.gz");
    reveal_strlit("csharp-language-server-aarch64-apple-darwin.tar.gz");
    reveal_strlit("csharp-language-server-x86_64-pc-windows-msvc.zip");
    reveal_strlit("csharp-language-server-aarch64-pc-windows-msvc.zip");
    assert("linux"@ != "macos"@) by {
        assert("linux"@[0] == 'l' && "macos"@[0] == 'm');
    }
    assert("linux"@ != "windows"@) by {
        assert("linux"@.len() != "windows"@.len());
    }
    assert("macos"@ != "windows"@) by {
        assert("macos"@.len() != "windows"@.len());
    }
    assert(asset_name_spec("linux"@, "x86_64"@)->0
        =~= "csharp-language-server-x86_64-unknown-linux-gnu.tar.gz"@);
    assert(asset_name_spec("linux"@, "aarch64"@)->0
        =~= "csharp-language-server-aarch64-unknown-linux-gnu.tar.gz"@);
    assert(asset_name_spec("macos"@, "x86_64"@)->0
        =~= "csharp-language-server-x86_64-apple-darwin.tar.gz"@);
    assert(asset_name_spec("macos"@, "aarch64"@)->0
        =~= "csharp-language-server-aarch64-apple-darwin.tar.gz"@);
    assert(asset_name_spec("windows"@, "x86_64"@)->0
        =~= "csharp-language-server-x86_64-pc-windows-msvc.zip"@);
    assert(asset_name_spec("windows"@, "aarch64"@)->0
        =~= "csharp-language-server-aarch64-pc-windows-msvc.zip"@);
}

/// Position `i` holds the first asset whose name is `want`.
pub open spec fn is_first_asset_match(assets: Seq<ReleaseAsset>, want: Seq<char>, i: int) -> bool {
    &&& 0 <= i < assets.len()
    &&& assets[i].name@ == want
    &&& forall|j: int| 0 <= j < i ==> assets[j].name@ != want
}

/// The position of the first asset named `want`, assuming there is one.
pub open spec fn first_asset_index(assets: Seq<ReleaseAsset>, want: Seq<char>) -> int {
    choose|i: int| is_first_asset_match(assets, want, i)
}

/// Resolves the toolchain version a release provides for a platform: the
/// release's tag together with the URL and digest of the first asset
/// whose name the platform maps to. Fails on an unsupported platform
/// before anything else, and when no asset name matches.
pub fn resolve_version(release: &Release, os: &str, arch: &str) -> (r: Result<
    ToolchainVersion,
    ResolutionError,
>)
    ensures
        match r {
            Ok(v) => {
                &&& asset_name_spec(os@, arch@) is Some
                &&& exists|i: int|
                    is_first_asset_match(release.assets@, asset_name_spec(os@, arch@)->0, i)
                &&& {
                    let i = first_asset_index(release.assets@, asset_name_spec(os@, arch@)->0);
                    &&& v.name@ == release.tag_name@
                    &&& v.url@ == release.assets@[i].download_url@
                    &&& opt_view(v.digest) == opt_view(release.assets@[i].digest)
                }
            },
            Err(e) => match e {
                ResolutionError::UnsupportedArch => !supported_arch(arch@),
                ResolutionError::UnsupportedOs => supported_arch(arch@) && !supported_os(os@),
                ResolutionError::NoMatchingAsset => asset_name_spec(os@, arch@) is Some
                    && forall|j: int|
                    0 <= j < release.assets@.len() ==> release.assets@[j].name@ != asset_name_spec(
                        os@,
                        arch@,
                    )->0,
                _ => false,
            },
        },
{
    let want = match asset_name(os, arch) {
        Ok(n) => n,
        Err(e) => {
            return Err(e);
        },
    };
    let wantv = to_char_vec(want.as_str());
    let mut i: usize = 0;
    while i < release.assets.len()
        invariant
            i <= release.assets@.len(),
            wantv@ == want@,
            asset_name_spec(os@, arch@) == Some(want@),
            forall|j: int| 0 <= j < i ==> release.assets@[j].name@ != want@,
        decreases release.assets@.len() - i,
    {
        let asset = &release.assets[i];
        let namev = to_char_vec(asset.name.as_str());
        if vec_eq(&namev, &wantv) {
            proof {
                assert(is_first_asset_match(release.assets@, want@, i as int));
                let k = first_asset_index(release.assets@, want@);
                assert(is_first_asset_match(release.assets@, want@, k));
                if k < i {
                    assert(release.assets@[k].name@ != want@);
                }
                if i < k {
                    assert(release.assets@[i as int].name@ != want@);
                }
            }
            let digest = match &asset.digest {
                Some(d) => Some(d.clone()),
                None => None,
            };
            return Ok(
                ToolchainVersion {
                    name: release.tag_name.clone(),
                    url: asset.download_url.clone(),
                    digest,
                },
            );
        }
        i = i + 1;
    }
    Err(ResolutionError::NoMatchingAsset)
}

/// Reads the resolved version out of a package-feed search: the trimmed
/// `searchResult[0].packages[0].latestVersion` field of the command's
/// JSON output. Fails when the search command itself failed, and when the
/// field is absent or empty after trimming.
pub fn parse_feed_search_version(command_succeeded: bool, output: &str) -> (r: Result<
    String,
    ResolutionError,
>)
    ensures
        match r {
            Ok(v) => {
                &&& command_succeeded
                &&& first_package_version_of(
                    output@,
                    "searchResult"@,
                    "packages"@,
                    "latestVersion"@,
                ) matches Some(raw) && v@ == trim_spec(raw) && trim_spec(raw).len() > 0
            },
            Err(e) => match e {
                ResolutionError::FeedUnavailable => !command_succeeded,
                ResolutionError::VersionFieldMissing => {
                    &&& command_succeeded
                    &&& match first_package_version_of(
                        output@,
                        "searchResult"@,
                        "packages"@,
                        "latestVersion"@,
                    ) {
                        Some(raw) => trim_spec(raw).len() == 0,
                        None => true,
                    }
                },
                _ => false,
            },
        },
{
    if !command_succeeded {
        return Err(ResolutionError::FeedUnavailable);
    }
    match json_first_package_version(output, "searchResult", "packages", "latestVersion") {
        Some(raw) => {
            let rawv = to_char_vec(raw.as_str());
            let trimmed = trim_vec(&rawv);
            if trimmed.len() == 0 {
                Err(ResolutionError::VersionFieldMissing)
            } else {
                Ok(chars_to_string(&trimmed))
            }
        },
        None => Err(ResolutionError::VersionFieldMissing),
    }
}

/// The one-time missing-prerequisite notifier: however many resolution
/// attempts race on it, only the first claim fires the warning.
pub struct PrerequisiteNotifier {
    /// Whether the warning has been claimed already.
    pub warned: bool,
}

impl PrerequisiteNotifier {
    /// A fresh notifier that has warned nobody yet.
    pub fn new() -> (n: PrerequisiteNotifier)
        ensures
            !n.warned,
    {
        PrerequisiteNotifier { warned: false }
    }

    /// Claims the warning: true exactly on the first call, so at most one
    /// warning is ever shown.
    pub fn claim_warning(&mut self) -> (fire: bool)
        ensures
            final(self).warned,
            fire == !old(self).warned,
    {
        let fire = !self.warned;
        self.warned = true;
        fire
    }
}

} // verus!
