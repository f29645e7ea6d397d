use vstd::prelude::*;
use crate::target::{resolve_target, target_of, triple_text, Platform, TargetTriple};
use crate::text::{push_text, text_equals};

verus! {

/// The tool whose archives are served from a fixed endpoint of their own, keyed by
/// name and version only.
pub const LEGACY_TOOL: &'static str = "wranglerjs";

/// The legacy endpoint: `<prefix><tool>/v<version>.tar.gz`.
pub open spec fn legacy_url(tool: Seq<char>, version: Seq<char>) -> Seq<char> {
    "https://workers.cloudflare.com/get-wranglerjs-binary/"@ + tool + "/v"@ + version
        + ".tar.gz"@
}

/// The endpoint prefix for a triple: hosts without native binaries go through the
/// override service.
pub open spec fn endpoint_of(t: TargetTriple) -> Seq<char> {
    if t == TargetTriple::MacOsAarch64 {
        "https://workers.cloudflare.com/get-override/"@
    } else {
        "https://workers.cloudflare.com/get-binary/"@
    }
}

/// The platform endpoint: `<prefix><owner>/<tool>/v<version>/<triple>.tar.gz`.
pub open spec fn platform_url(
    tool: Seq<char>,
    owner: Seq<char>,
    version: Seq<char>,
    t: TargetTriple,
) -> Seq<char> {
    endpoint_of(t) + owner + "/"@ + tool + "/v"@ + version + "/"@ + triple_text(t)
        + ".tar.gz"@
}

/// Where the archive of `tool` at `version` is fetched from on platform `p`, or
/// none where `p` has no prebuilt binaries.
pub open spec fn url_for(tool: Seq<char>, owner: Seq<char>, version: Seq<char>, p: Platform) -> Option<
    Seq<char>,
> {
    if tool == LEGACY_TOOL@ {
        Some(legacy_url(tool, version))
    } else {
        match target_of(p) {
            Some(t) => Some(platform_url(tool, owner, version, t)),
            None => None,
        }
    }
}

/// Builds the download address of a tool's prebuilt archive for platform `p`.
pub fn prebuilt_url(tool_name: &str, owner: &str, version: &str, p: Platform) -> (r: Option<String>)
    ensures
        r matches Some(u) ==> url_for(tool_name@, owner@, version@, p) == Some(u@),
        r is None ==> url_for(tool_name@, owner@, version@, p) is None,
{
    if text_equals(tool_name, LEGACY_TOOL) {
        let mut s = String::from_str("https://workers.cloudflare.com/get-wranglerjs-binary/");
        push_text(&mut s, tool_name);
        push_text(&mut s, "/v");
        push_text(&mut s, version);
        push_text(&mut s, ".tar.gz");
        assert(s@ =~= legacy_url(tool_name@, version@));
        Some(s)
    } else {
        let t = match resolve_target(p) {
            Some(t) => t,
            None => return None,
        };
        let mut s = if t == TargetTriple::MacOsAarch64 {
            String::from_str("https://workers.cloudflare.com/get-override/")
        } else {
            String::from_str("https://workers.cloudflare.com/get-binary/")
        };
        push_text(&mut s, owner);
        push_text(&mut s, "/");
        push_text(&mut s, tool_name);
        push_text(&mut s, "/v");
        push_text(&mut s, version);
        push_text(&mut s, "/");
        t.push_text_to(&mut s);
        push_text(&mut s, ".tar.gz");
        assert(s@ =~= platform_url(tool_name@, owner@, version@, t));
        Some(s)
    }
}

/// On the aarch64 macOS host every tool but the legacy one is fetched through the
/// override endpoint, never the general one, with the same other parts.
pub proof fn lemma_override_on_aarch64_macos(tool: Seq<char>, owner: Seq<char>, version: Seq<char>, p: Platform)
    requires
        target_of(p) == Some(TargetTriple::MacOsAarch64),
        tool != LEGACY_TOOL@,
    ensures
        url_for(tool, owner, version, p) == Some(
            "https://workers.cloudflare.com/get-override/"@ + owner + "/"@ + tool + "/v"@ + version
                + "/"@ + "aarch64-apple-darwin"@ + ".tar.gz"@,
        ),
        url_for(tool, owner, version, p) != Some(
            "https://workers.cloudflare.com/get-binary/"@ + owner + "/"@ + tool + "/v"@ + version
                + "/"@ + "aarch64-apple-darwin"@ + ".tar.gz"@,
        ),
{
    let rest = owner + "/"@ + tool + "/v"@ + version + "/"@ + "aarch64-apple-darwin"@ + ".tar.gz"@;
    let o = "https://workers.cloudflare.com/get-override/"@;
    let b = "https://workers.cloudflare.com/get-binary/"@;
    reveal_strlit("https://workers.cloudflare.com/get-override/");
    reveal_strlit("https://workers.cloudflare.com/get-binary/");
    reveal_strlit("aarch64-apple-darwin");
    assert(triple_text(TargetTriple::MacOsAarch64) == "aarch64-apple-darwin"@);
    assert(o + owner + "/"@ + tool + "/v"@ + version + "/"@ + "aarch64-apple-darwin"@ + ".tar.gz"@
        =~= o + rest);
    assert(b + owner + "/"@ + tool + "/v"@ + version + "/"@ + "aarch64-apple-darwin"@ + ".tar.gz"@
        =~= b + rest);
    assert((o + rest)[35] == o[35]);
    assert((b + rest)[35] == b[35]);
    assert(o[35] != b[35]);
}

/// The legacy tool's address depends on its version alone: owner and platform play
/// no part.
pub proof fn lemma_legacy_ignores_owner_and_platform(
    version: Seq<char>,
    owner1: Seq<char>,
    owner2: Seq<char>,
    p1: Platform,
    p2: Platform,
)
    ensures
        url_for(LEGACY_TOOL@, owner1, version, p1) == url_for(LEGACY_TOOL@, owner2, version, p2),
        url_for(LEGACY_TOOL@, owner1, version, p1) == Some(legacy_url(LEGACY_TOOL@, version)),
{
}

} // verus!
