use vstd::prelude::*;
use crate::cache::{entry_version, first_index, get_installation, names_of, CacheEntry};
use crate::target::Platform;
use crate::text::push_text;
use crate::url::{prebuilt_url, url_for};
use crate::version::{version_ge, version_text, Version, VersionModel};

verus! {

/// What an install request comes to once the cache has been looked at.
pub enum ToolDownload {
    /// No usable copy is present: this version must be fetched.
    NeedsInstall(Version),
    /// A usable copy is present at this path.
    InstalledAt(String),
}

/// A copy at version `installed` may serve a request for `target`: same major
/// version, and not older.
pub open spec fn reuse_allowed(installed: VersionModel, target: VersionModel) -> bool {
    installed.major == target.major && version_ge(installed, target)
}

/// The path of the copy that serves the request, or none where a fresh install is
/// needed; `listing` is none where the cache directory could not be read.
pub open spec fn reused_path(tool: Seq<char>, target: VersionModel, listing: Option<Seq<CacheEntry>>) -> Option<
    Seq<char>,
> {
    match listing {
        None => None,
        Some(es) => match first_index(names_of(es), tool, target, 0) {
            None => None,
            Some(i) => match entry_version(es[i as int].name@, tool) {
                Some(v) => if reuse_allowed(v, target) {
                    Some(es[i as int].path@)
                } else {
                    None
                },
                None => None,
            },
        },
    }
}

/// Whether `d` stands for `reuse` (a path) or, where that is none, for a fresh
/// install of exactly `target`.
pub open spec fn download_is(d: ToolDownload, reuse: Option<Seq<char>>, target: VersionModel) -> bool {
    match reuse {
        Some(p) => d matches ToolDownload::InstalledAt(q) && q@ == p,
        None => d matches ToolDownload::NeedsInstall(t) && t@ == target,
    }
}

/// Decides between reusing the copy `installed` (its version and path) and a fresh
/// install of `target`.
pub fn decide(installed: Option<(Version, String)>, target: Version) -> (r: ToolDownload)
    ensures
        download_is(
            r,
            match installed {
                Some((v, p)) => if reuse_allowed(v@, target@) {
                    Some(p@)
                } else {
                    None
                },
                None => None,
            },
            target@,
        ),
{
    match installed {
        Some((v, p)) => {
            if v.major == target.major && v.at_least(&target) {
                ToolDownload::InstalledAt(p)
            } else {
                ToolDownload::NeedsInstall(target)
            }
        },
        None => ToolDownload::NeedsInstall(target),
    }
}

/// Decides whether `tool_name` must be installed at `target`, from a listing of the
/// cache directory; `listing` is none where the directory could not be read, and
/// then the tool counts as not installed.
pub fn tool_needs_update(tool_name: &str, target: Version, listing: Option<&Vec<CacheEntry>>) -> (r:
    ToolDownload)
    ensures
        download_is(
            r,
            reused_path(
                tool_name@,
                target@,
                match listing {
                    Some(es) => Some(es@),
                    None => None,
                },
            ),
            target@,
        ),
{
    match listing {
        Some(entries) => {
            let found = get_installation(tool_name, &target, entries);
            decide(found, target)
        },
        None => decide(None, target),
    }
}

/// A download that the artifact cache is asked to perform.
pub struct DownloadRequest {
    pub tool_name: String,
    pub url: String,
    pub version: String,
    /// The binaries that must be present once the archive is unpacked; empty where
    /// the archive is fetched as a plain artifact.
    pub binaries: Vec<String>,
}

/// What the caller does next.
pub enum InstallAction {
    /// Use the copy already at this path.
    Reuse(String),
    /// Fetch the archive.
    Fetch(DownloadRequest),
}

/// Why no usable binary could be obtained.
pub enum InstallError {
    /// The host has no prebuilt binaries of the tool.
    NoPrebuilt { tool_name: String },
    /// The download finished but the tool is not there.
    NotInstalled { tool_name: String },
    /// The artifact cache reported a failure, described by `cause`.
    DownloadFailed { tool_name: String, cause: String },
}

/// The text of an install error.
pub open spec fn error_text(e: InstallError) -> Seq<char> {
    match e {
        InstallError::NoPrebuilt { tool_name } => "could not download `"@ + tool_name@ + "`\n"@
            + "no prebuilt "@ + tool_name@ + " binaries are available for this platform"@,
        InstallError::NotInstalled { tool_name } => "could not download `"@ + tool_name@ + "`\n"@
            + tool_name@ + " is not installed!"@,
        InstallError::DownloadFailed { tool_name, cause } => "could not download `"@ + tool_name@
            + "`\n"@ + cause@,
    }
}

impl InstallError {
    /// The text of the error, naming the tool that failed.
    pub fn message(&self) -> (r: String)
        ensures
            r@ == error_text(*self),
    {
        let mut s = String::from_str("could not download `");
        match self {
            InstallError::NoPrebuilt { tool_name } => {
                push_text(&mut s, tool_name.as_str());
                push_text(&mut s, "`\n");
                push_text(&mut s, "no prebuilt ");
                push_text(&mut s, tool_name.as_str());
                push_text(&mut s, " binaries are available for this platform");
            },
            InstallError::NotInstalled { tool_name } => {
                push_text(&mut s, tool_name.as_str());
                push_text(&mut s, "`\n");
                push_text(&mut s, tool_name.as_str());
                push_text(&mut s, " is not installed!");
            },
            InstallError::DownloadFailed { tool_name, cause } => {
                push_text(&mut s, tool_name.as_str());
                push_text(&mut s, "`\n");
                push_text(&mut s, cause.as_str());
            },
        }
        assert(s@ =~= error_text(*self));
        s
    }
}

impl DownloadRequest {
    /// Whether the named binaries are to be checked after unpacking, rather than the
    /// archive being kept as a plain artifact.
    pub fn expects_binaries(&self) -> (r: bool)
        ensures
            r == (self.binaries@.len() > 0),
    {
        self.binaries.len() > 0
    }
}

/// Decides what an install request for `tool_name` at `version` by `owner` comes to
/// on platform `p`, given a listing of the cache directory (none where it could not
/// be read): reuse a copy, fetch an archive, or fail for want of prebuilt binaries.
/// Where `is_binary`, the tool's own name is the one binary the archive must hold.
pub fn install(
    tool_name: &str,
    owner: &str,
    is_binary: bool,
    version: Version,
    listing: Option<&Vec<CacheEntry>>,
    p: Platform,
) -> (r: Result<InstallAction, InstallError>)
    ensures
        ({
            let reuse = reused_path(
                tool_name@,
                version@,
                match listing {
                    Some(es) => Some(es@),
                    None => None,
                },
            );
            let url = url_for(tool_name@, owner@, version_text(version@), p);
            match reuse {
                Some(path) => r matches Ok(InstallAction::Reuse(q)) && q@ == path,
                None => match url {
                    None => r matches Err(InstallError::NoPrebuilt { tool_name: t }) && t@
                        == tool_name@,
                    Some(u) => r matches Ok(InstallAction::Fetch(d)) && d.tool_name@ == tool_name@
                        && d.url@ == u && d.version@ == version_text(version@) && (if is_binary {
                        d.binaries@.len() == 1 && d.binaries@[0]@ == tool_name@
                    } else {
                        d.binaries@.len() == 0
                    }),
                },
            }
        }),
{
    match tool_needs_update(tool_name, version, listing) {
        ToolDownload::InstalledAt(path) => Ok(InstallAction::Reuse(path)),
        ToolDownload::NeedsInstall(v) => {
            let text = v.to_text();
            match prebuilt_url(tool_name, owner, text.as_str(), p) {
                None => Err(InstallError::NoPrebuilt { tool_name: String::from_str(tool_name) }),
                Some(url) => {
                    let mut binaries: Vec<String> = Vec::new();
                    if is_binary {
                        binaries.push(String::from_str(tool_name));
                    }
                    Ok(
                        InstallAction::Fetch(
                            DownloadRequest {
                                tool_name: String::from_str(tool_name),
                                url,
                                version: text,
                                binaries,
                            },
                        ),
                    )
                },
            }
        },
    }
}

/// What the artifact cache reported for a download: a failure with its text, no
/// copy, or the path of the copy.
pub enum DownloadOutcome {
    Failed(String),
    Missing,
    Done(String),
}

/// Turns what the artifact cache reported for `tool_name` into the path of the
/// installed copy, or the error that names the tool.
pub fn download_result(tool_name: &str, outcome: DownloadOutcome) -> (r: Result<String, InstallError>)
    ensures
        match outcome {
            DownloadOutcome::Done(path) => r matches Ok(q) && q@ == path@,
            DownloadOutcome::Missing => r matches Err(InstallError::NotInstalled { tool_name: t })
                && t@ == tool_name@,
            DownloadOutcome::Failed(cause) => r matches Err(
                InstallError::DownloadFailed { tool_name: t, cause: c },
            ) && t@ == tool_name@ && c@ == cause@,
        },
{
    match outcome {
        DownloadOutcome::Done(path) => Ok(path),
        DownloadOutcome::Missing => Err(InstallError::NotInstalled { tool_name: String::from_str(tool_name) }),
        DownloadOutcome::Failed(cause) => Err(
            InstallError::DownloadFailed { tool_name: String::from_str(tool_name), cause },
        ),
    }
}

} // verus!
