use tool_install::cache::{get_installation, version_part_of, CacheEntry};
use tool_install::install::{
    decide, download_result, install, tool_needs_update, DownloadOutcome, InstallAction,
    InstallError, ToolDownload,
};
use tool_install::target::{resolve_target, Arch, Os, Platform, TargetTriple};
use tool_install::url::prebuilt_url;
use tool_install::version::{Identifier, Version};

fn v(s: &str) -> Version {
    Version::parse(s).unwrap()
}

fn entry(name: &str) -> CacheEntry {
    CacheEntry { name: name.to_string(), path: format!("/cache/{}", name) }
}

fn linux() -> Platform {
    Platform { os: Os::Linux, arch: Arch::X86_64 }
}

fn needs_install_of(d: &ToolDownload) -> String {
    match d {
        ToolDownload::NeedsInstall(t) => t.to_text(),
        ToolDownload::InstalledAt(p) => panic!("reused {}", p),
    }
}

fn installed_at(d: &ToolDownload) -> String {
    match d {
        ToolDownload::InstalledAt(p) => p.clone(),
        ToolDownload::NeedsInstall(t) => panic!("needs install of {}", t.to_text()),
    }
}

#[test]
fn parse_reads_fields() {
    let x = v("2.10.3-alpha.7+build.5");
    assert_eq!((x.major, x.minor, x.patch), (2, 10, 3));
    assert_eq!(x.pre.len(), 2);
    assert!(matches!(&x.pre[0], Identifier::AlphaNumeric(s) if s == "alpha"));
    assert!(matches!(&x.pre[1], Identifier::Numeric(7)));
    assert_eq!(x.build.len(), 2);
    assert_eq!(x.to_text(), "2.10.3-alpha.7+build.5");
}

#[test]
fn parse_rejects_non_versions() {
    assert!(Version::parse("x.y.z").is_none());
    assert!(Version::parse("1.2").is_none());
    assert!(Version::parse("").is_none());
}

#[test]
fn precedence_order() {
    assert!(v("1.9.0").precedes(&v("2.0.0")));
    assert!(v("2.0.0").precedes(&v("2.1.0")));
    assert!(v("2.1.0-alpha").precedes(&v("2.1.0")));
    assert!(v("2.1.0-alpha").precedes(&v("2.1.0-beta")));
    assert!(v("2.1.0-alpha.1").precedes(&v("2.1.0-alpha.beta")));
    assert!(v("2.1.0-alpha").precedes(&v("2.1.0-alpha.1")));
    assert!(v("2.1.0-2").precedes(&v("2.1.0-10")));
    assert!(!v("2.1.0").precedes(&v("2.1.0")));
    assert!(v("2.3.0").at_least(&v("2.1.0")));
    assert!(!v("2.0.0").at_least(&v("2.1.0")));
    assert!(v("2.1.0+a").same_as(&v("2.1.0+b")));
    assert!(!v("2.1.0-a").same_as(&v("2.1.0")));
}

#[test]
fn reuse_newer_same_major() {
    let d = decide(Some((v("2.3.0"), "/cache/foo-2.3.0".to_string())), v("2.1.0"));
    assert_eq!(installed_at(&d), "/cache/foo-2.3.0");
}

#[test]
fn install_when_major_differs() {
    let d = decide(Some((v("1.9.0"), "/cache/foo-1.9.0".to_string())), v("2.1.0"));
    assert_eq!(needs_install_of(&d), "2.1.0");
    let d = decide(Some((v("3.0.0"), "/cache/foo-3.0.0".to_string())), v("2.1.0"));
    assert_eq!(needs_install_of(&d), "2.1.0");
    let es = vec![entry("foo-1.9.0")];
    assert_eq!(needs_install_of(&tool_needs_update("foo", v("2.1.0"), Some(&es))), "2.1.0");
}

#[test]
fn install_when_older_same_major() {
    let d = decide(Some((v("2.0.0"), "/cache/foo-2.0.0".to_string())), v("2.1.0"));
    assert_eq!(needs_install_of(&d), "2.1.0");
    let es = vec![entry("foo-2.0.0")];
    assert_eq!(needs_install_of(&tool_needs_update("foo", v("2.1.0"), Some(&es))), "2.1.0");
}

#[test]
fn unreadable_cache_counts_as_not_installed() {
    assert_eq!(needs_install_of(&tool_needs_update("foo", v("2.1.0"), None)), "2.1.0");
}

#[test]
fn cache_lookup_wants_exact_version() {
    let es = vec![entry("foo-2.3.0")];
    assert!(get_installation("foo", &v("2.1.0"), &es).is_none());
    assert_eq!(needs_install_of(&tool_needs_update("foo", v("2.1.0"), Some(&es))), "2.1.0");
    let es = vec![entry("bar-2.1.0"), entry("foo-2.0.0"), entry("foo-2.1.0"), entry("foo-2.1.0-x")];
    let (found, path) = get_installation("foo", &v("2.1.0"), &es).unwrap();
    assert_eq!(found.to_text(), "2.1.0");
    assert_eq!(path, "/cache/foo-2.1.0");
    assert_eq!(installed_at(&tool_needs_update("foo", v("2.1.0"), Some(&es))), "/cache/foo-2.1.0");
}

#[test]
fn unparseable_entries_are_skipped() {
    let es = vec![entry("foo-x.y.z"), entry("foo-"), entry("foo"), entry("foobar"), entry("foo-2.1.0")];
    assert_eq!(installed_at(&tool_needs_update("foo", v("2.1.0"), Some(&es))), "/cache/foo-2.1.0");
    let es = vec![entry("foo-x.y.z"), entry("foo-1.2")];
    assert_eq!(needs_install_of(&tool_needs_update("foo", v("2.1.0"), Some(&es))), "2.1.0");
}

#[test]
fn version_part_splits_on_separator() {
    assert_eq!(version_part_of("foo-2.1.0", "foo").unwrap(), "2.1.0");
    assert_eq!(version_part_of("foo-1.0.0-foo-x", "foo").unwrap(), "1.0.0-");
    assert_eq!(version_part_of("foobar-foo-1.0.0", "foo").unwrap(), "1.0.0");
    assert!(version_part_of("foobar", "foo").is_none());
    assert!(version_part_of("bar-foo-1.0.0", "foo").is_none());
}

#[test]
fn target_for_each_platform() {
    let t = |os, arch| resolve_target(Platform { os, arch });
    assert_eq!(t(Os::Linux, Arch::X86_64), Some(TargetTriple::LinuxX86_64));
    assert_eq!(t(Os::MacOs, Arch::X86_64), Some(TargetTriple::MacOsX86_64));
    assert_eq!(t(Os::Windows, Arch::X86_64), Some(TargetTriple::WindowsX86_64));
    assert_eq!(t(Os::MacOs, Arch::Aarch64), Some(TargetTriple::MacOsAarch64));
    assert_eq!(t(Os::Linux, Arch::Aarch64), None);
    assert_eq!(t(Os::Windows, Arch::Aarch64), None);
    assert_eq!(t(Os::Other, Arch::X86_64), None);
    assert_eq!(t(Os::MacOs, Arch::Other), None);
    assert_eq!(TargetTriple::LinuxX86_64.to_text(), "x86_64-unknown-linux-musl");
    assert_eq!(TargetTriple::MacOsAarch64.to_text(), "aarch64-apple-darwin");
}

#[test]
fn general_url() {
    assert_eq!(
        prebuilt_url("wasm-pack", "rustwasm", "0.9.1", linux()).unwrap(),
        "https://workers.cloudflare.com/get-binary/rustwasm/wasm-pack/v0.9.1/x86_64-unknown-linux-musl.tar.gz"
    );
    assert_eq!(
        prebuilt_url("wasm-pack", "rustwasm", "0.9.1", Platform { os: Os::Windows, arch: Arch::X86_64 }).unwrap(),
        "https://workers.cloudflare.com/get-binary/rustwasm/wasm-pack/v0.9.1/x86_64-pc-windows-msvc.tar.gz"
    );
}

#[test]
fn override_url_on_aarch64_macos() {
    assert_eq!(
        prebuilt_url("cargo-generate", "ashleygwilliams", "0.5.0", Platform { os: Os::MacOs, arch: Arch::Aarch64 }).unwrap(),
        "https://workers.cloudflare.com/get-override/ashleygwilliams/cargo-generate/v0.5.0/aarch64-apple-darwin.tar.gz"
    );
}

#[test]
fn legacy_url_ignores_owner_and_platform() {
    let expected = "https://workers.cloudflare.com/get-wranglerjs-binary/wranglerjs/v1.4.0.tar.gz";
    assert_eq!(prebuilt_url("wranglerjs", "someone", "1.4.0", linux()).unwrap(), expected);
    let other = Platform { os: Os::Other, arch: Arch::Other };
    assert_eq!(prebuilt_url("wranglerjs", "else", "1.4.0", other).unwrap(), expected);
}

#[test]
fn no_url_on_unsupported_platform() {
    assert!(prebuilt_url("foo", "me", "1.0.0", Platform { os: Os::Linux, arch: Arch::Aarch64 }).is_none());
}

#[test]
fn install_fetches_binary() {
    let es = vec![entry("foo-2.0.0")];
    match install("foo", "me", true, v("2.1.0"), Some(&es), linux()) {
        Ok(InstallAction::Fetch(d)) => {
            assert_eq!(d.tool_name, "foo");
            assert_eq!(d.version, "2.1.0");
            assert_eq!(d.url, "https://workers.cloudflare.com/get-binary/me/foo/v2.1.0/x86_64-unknown-linux-musl.tar.gz");
            assert_eq!(d.binaries, vec!["foo".to_string()]);
            assert!(d.expects_binaries());
        }
        _ => panic!("expected a fetch"),
    }
}

#[test]
fn install_fetches_artifact() {
    match install("foo", "me", false, v("2.1.0"), None, linux()) {
        Ok(InstallAction::Fetch(d)) => {
            assert!(d.binaries.is_empty());
            assert!(!d.expects_binaries());
        }
        _ => panic!("expected a fetch"),
    }
}

#[test]
fn install_reuses_copy() {
    let es = vec![entry("foo-2.1.0")];
    match install("foo", "me", true, v("2.1.0"), Some(&es), linux()) {
        Ok(InstallAction::Reuse(p)) => assert_eq!(p, "/cache/foo-2.1.0"),
        _ => panic!("expected reuse"),
    }
}

#[test]
fn install_without_prebuilt_binaries() {
    let p = Platform { os: Os::Windows, arch: Arch::Aarch64 };
    match install("foo", "me", true, v("2.1.0"), None, p) {
        Err(e) => {
            assert!(matches!(&e, InstallError::NoPrebuilt { tool_name } if tool_name == "foo"));
            assert_eq!(e.message(), "could not download `foo`\nno prebuilt foo binaries are available for this platform");
        }
        _ => panic!("expected an error"),
    }
}

#[test]
fn download_outcomes() {
    assert_eq!(download_result("foo", DownloadOutcome::Done("/c/foo".to_string())).ok().unwrap(), "/c/foo");
    let e = download_result("foo", DownloadOutcome::Missing).err().unwrap();
    assert_eq!(e.message(), "could not download `foo`\nfoo is not installed!");
    let e = download_result("foo", DownloadOutcome::Failed("timed out".to_string())).err().unwrap();
    assert_eq!(e.message(), "could not download `foo`\ntimed out");
}
