use vstd::prelude::*;
use crate::text::push_text;

verus! {

/// The operating-system family of a host.
#[derive(Clone, Copy, PartialEq, Eq, Structural, Debug)]
pub enum Os {
    Linux,
    MacOs,
    Windows,
    Other,
}

/// The CPU architecture of a host.
#[derive(Clone, Copy, PartialEq, Eq, Structural, Debug)]
pub enum Arch {
    X86_64,
    Aarch64,
    Other,
}

/// The host a binary is wanted for.
#[derive(Clone, Copy, PartialEq, Eq, Structural, Debug)]
pub struct Platform {
    pub os: Os,
    pub arch: Arch,
}

/// The hosts for which prebuilt binaries are published.
#[derive(Clone, Copy, PartialEq, Eq, Structural, Debug)]
pub enum TargetTriple {
    LinuxX86_64,
    MacOsX86_64,
    WindowsX86_64,
    MacOsAarch64,
}

/// The triple that serves a platform, or none where no prebuilt binary exists.
pub open spec fn target_of(p: Platform) -> Option<TargetTriple> {
    match (p.os, p.arch) {
        (Os::Linux, Arch::X86_64) => Some(TargetTriple::LinuxX86_64),
        (Os::MacOs, Arch::X86_64) => Some(TargetTriple::MacOsX86_64),
        (Os::Windows, Arch::X86_64) => Some(TargetTriple::WindowsX86_64),
        (Os::MacOs, Arch::Aarch64) => Some(TargetTriple::MacOsAarch64),
        _ => None,
    }
}

/// The canonical text of a target triple.
pub open spec fn triple_text(t: TargetTriple) -> Seq<char> {
    match t {
        TargetTriple::LinuxX86_64 => "x86_64-unknown-linux-musl"@,
        TargetTriple::MacOsX86_64 => "x86_64-apple-darwin"@,
        TargetTriple::WindowsX86_64 => "x86_64-pc-windows-msvc"@,
        TargetTriple::MacOsAarch64 => "aarch64-apple-darwin"@,
    }
}

/// Maps a platform to the target triple of its prebuilt binaries.
pub fn resolve_target(p: Platform) -> (r: Option<TargetTriple>)
    ensures
        r == target_of(p),
{
    match (p.os, p.arch) {
        (Os::Linux, Arch::X86_64) => Some(TargetTriple::LinuxX86_64),
        (Os::MacOs, Arch::X86_64) => Some(TargetTriple::MacOsX86_64),
        (Os::Windows, Arch::X86_64) => Some(TargetTriple::WindowsX86_64),
        (Os::MacOs, Arch::Aarch64) => Some(TargetTriple::MacOsAarch64),
        _ => None,
    }
}

/// A platform is served by exactly one of the four triples, or by none where its
/// combination is not among them.
pub proof fn lemma_target_unique(p: Platform)
    ensures
        target_of(p) is Some <==> ((p.os == Os::Linux && p.arch == Arch::X86_64) || (p.os
            == Os::MacOs && p.arch == Arch::X86_64) || (p.os == Os::Windows && p.arch
            == Arch::X86_64) || (p.os == Os::MacOs && p.arch == Arch::Aarch64)),
        forall|t: TargetTriple, u: TargetTriple|
            target_of(p) == Some(t) && target_of(p) == Some(u) ==> t == u,
{
}

impl TargetTriple {
    /// Appends the text of the triple to `s`.
    pub fn push_text_to(&self, s: &mut String)
        ensures
            final(s)@ == old(s)@ + triple_text(*self),
    {
        match self {
            TargetTriple::LinuxX86_64 => push_text(s, "x86_64-unknown-linux-musl"),
            TargetTriple::MacOsX86_64 => push_text(s, "x86_64-apple-darwin"),
            TargetTriple::WindowsX86_64 => push_text(s, "x86_64-pc-windows-msvc"),
            TargetTriple::MacOsAarch64 => push_text(s, "aarch64-apple-darwin"),
        }
    }

    /// The text of the triple.
    pub fn to_text(&self) -> (r: String)
        ensures
            r@ == triple_text(*self),
    {
        let mut s = String::new();
        self.push_text_to(&mut s);
        assert(s@ =~= triple_text(*self));
        s
    }
}

} // verus!
