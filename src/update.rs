//! Release descriptions and the choices made on them when updating.
use vstd::prelude::*;
use crate::text::{chars_of, same_chars};

verus! {

/// Name for whether `semver::Version::parse` accepts a text.
pub uninterp spec fn semver_accepts(s: Seq<char>) -> bool;

/// Name for whether the version `a` comes after the version `b` in
/// `semver::Version`'s order.
pub uninterp spec fn semver_newer(a: Seq<char>, b: Seq<char>) -> bool;

/// Relies on `semver::Version::parse`: whether the text is a version (the
/// empty text is not one).
#[verifier::external_body]
fn is_version(s: &str) -> (r: bool)
    ensures
        r == semver_accepts(s@),
        s@.len() == 0 ==> !r,
{
    semver::Version::parse(s).is_ok()
}

/// Relies on `semver::Version::parse` and `semver::Version`'s `Ord`
/// (precedence, then build metadata): whether `a` comes after `b`.
#[verifier::external_body]
fn version_after(a: &str, b: &str) -> (r: bool)
    requires
        semver_accepts(a@),
        semver_accepts(b@),
    ensures
        r == semver_newer(a@, b@),
{
    match (semver::Version::parse(a), semver::Version::parse(b)) {
        (Ok(x), Ok(y)) => x > y,
        _ => false,
    }
}

/// Which version text could not be read.
#[derive(Clone, Copy, Debug, PartialEq, Eq, Structural)]
pub enum VersionError {
    InvalidLatest,
    InvalidCurrent,
}

/// A downloadable file of a release.
#[derive(Clone, Debug)]
pub struct GitHubAsset {
    pub name: String,
    pub browser_download_url: String,
}

/// A published release.
#[derive(Clone, Debug)]
pub struct GitHubRelease {
    pub tag_name: String,
    pub name: String,
    pub body: String,
    pub assets: Vec<GitHubAsset>,
}

/// `s` without its leading `v` characters.
pub open spec fn strip_v(s: Seq<char>) -> Seq<char>
    decreases s.len(),
{
    if s.len() > 0 && s[0] == 'v' {
        strip_v(s.drop_first())
    } else {
        s
    }
}

/// The name of the archive asset a release of tag `tag` carries.
pub open spec fn archive_name(tag: Seq<char>) -> Seq<char> {
    "commayte-"@ + tag + ".tar.gz"@
}

/// The binary name for an operating system and an architecture, when one is
/// published for them.
pub open spec fn platform_name(os: Seq<char>, arch: Seq<char>) -> Option<Seq<char>> {
    if os == "linux"@ && arch == "x86_64"@ {
        Some("commayte-linux-x86_64"@)
    } else if os == "macos"@ && arch == "x86_64"@ {
        Some("commayte-macos-x86_64"@)
    } else if os == "macos"@ && arch == "aarch64"@ {
        Some("commayte-macos-arm64"@)
    } else if os == "windows"@ && arch == "x86_64"@ {
        Some("commayte-windows-x86_64.exe"@)
    } else {
        None
    }
}

impl GitHubRelease {
    /// Position of the first asset named `name`, if any.
    pub open spec fn asset_index(&self, name: Seq<char>) -> Option<int> {
        if exists|i: int| 0 <= i < self.assets.len() && self.assets[i].name@ == name {
            Some(
                choose|i: int|
                    0 <= i < self.assets.len() && self.assets[i].name@ == name && forall|j: int|
                        0 <= j < i ==> self.assets[j].name@ != name,
            )
        } else {
            None
        }
    }

    /// The version: the tag without its leading `v` characters.
    pub fn version(&self) -> (r: &str)
        ensures
            r@ == strip_v(self.tag_name@),
    {
        let t = chars_of(self.tag_name.as_str());
        let mut i: usize = 0;
        assert(t@.skip(0) =~= t@);
        while i < t.len() && t[i] == 'v'
            invariant
                i <= t.len(),
                strip_v(t@) == strip_v(t@.skip(i as int)),
            decreases t.len() - i,
        {
            assert(t@.skip(i as int).drop_first() =~= t@.skip(i + 1));
            i += 1;
        }
        assert(t@.skip(i as int) =~= self.tag_name@.subrange(i as int, t.len() as int));
        self.tag_name.as_str().substring_char(i, t.len())
    }

    /// Position of the first asset named `name`.
    pub fn find_asset(&self, name: &str) -> (r: Option<usize>)
        ensures
            match r {
                Some(i) => self.asset_index(name@) == Some(i as int),
                None => self.asset_index(name@) is None,
            },
    {
        let wanted = chars_of(name);
        let mut i: usize = 0;
        while i < self.assets.len()
            invariant
                i <= self.assets.len(),
                wanted@ == name@,
                forall|j: int| 0 <= j < i ==> self.assets[j].name@ != name@,
            decreases self.assets.len() - i,
        {
            if same_chars(&chars_of(self.assets[i].name.as_str()), &wanted) {
                assert(0 <= i < self.assets.len() && self.assets[i as int].name@ == name@);
                let ghost k = choose|k: int|
                    0 <= k < self.assets.len() && self.assets[k].name@ == name@ && forall|j: int|
                        0 <= j < k ==> self.assets[j].name@ != name@;
                assert(k == i) by {
                    if k < i {
                    } else if k > i {
                        assert(self.assets[i as int].name@ != name@);
                    }
                }
                return Some(i);
            }
            i += 1;
        }
        None
    }

    /// Whether the release carries its archive asset.
    pub fn has_archive_asset(&self) -> (r: bool)
        ensures
            r == (self.asset_index(archive_name(self.tag_name@)) is Some),
    {
        let name = archive_asset_name(self.tag_name.as_str());
        self.find_asset(name.as_str()).is_some()
    }
}

/// Whether the release is newer than the running version `current`. The
/// current version is read first; each text that is not a version gives its
/// error.
pub fn release_is_newer(release: &GitHubRelease, current: &str) -> (r: Result<bool, VersionError>)
    ensures
        !semver_accepts(current@) ==> r == Err::<bool, VersionError>(VersionError::InvalidCurrent),
        semver_accepts(current@) && !semver_accepts(strip_v(release.tag_name@)) ==> r == Err::<
            bool,
            VersionError,
        >(VersionError::InvalidLatest),
        semver_accepts(current@) && semver_accepts(strip_v(release.tag_name@)) ==> r == Ok::<
            bool,
            VersionError,
        >(semver_newer(strip_v(release.tag_name@), current@)),
{
    if !is_version(current) {
        return Err(VersionError::InvalidCurrent);
    }
    let latest = release.version();
    if !is_version(latest) {
        return Err(VersionError::InvalidLatest);
    }
    Ok(version_after(latest, current))
}

/// The name of the archive asset of a release tagged `tag`.
pub fn archive_asset_name(tag: &str) -> (r: String)
    ensures
        r@ == archive_name(tag@),
{
    let mut r = String::from_str("commayte-");
    r.append(tag);
    r.append(".tar.gz");
    r
}

/// The path of the binary inside the archive for a platform name.
pub fn archive_binary_path(platform: &str) -> (r: String)
    ensures
        r@ == platform@ + "/"@ + platform@,
{
    let mut r = String::from_str(platform);
    r.append("/");
    r.append(platform);
    r
}

fn is_text(s: &str, lit: &str) -> (r: bool)
    ensures
        r == (s@ == lit@),
{
    same_chars(&chars_of(s), &chars_of(lit))
}

/// The published binary name for an operating system and an architecture.
pub fn get_platform_identifier(os: &str, arch: &str) -> (r: Option<String>)
    ensures
        match r {
            Some(p) => platform_name(os@, arch@) == Some(p@),
            None => platform_name(os@, arch@) is None,
        },
{
    if is_text(os, "linux") && is_text(arch, "x86_64") {
        Some(String::from_str("commayte-linux-x86_64"))
    } else if is_text(os, "macos") && is_text(arch, "x86_64") {
        Some(String::from_str("commayte-macos-x86_64"))
    } else if is_text(os, "macos") && is_text(arch, "aarch64") {
        Some(String::from_str("commayte-macos-arm64"))
    } else if is_text(os, "windows") && is_text(arch, "x86_64") {
        Some(String::from_str("commayte-windows-x86_64.exe"))
    } else {
        None
    }
}

} // verus!
