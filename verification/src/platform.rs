//! The host a tool runs on: an operating system and an architecture.

use vstd::prelude::*;

verus! {

/// Operating system of the host.
#[derive(Clone, Copy, Debug, PartialEq, Eq, Structural)]
pub enum Os {
    Linux,
    MacOS,
    Windows,
    /// Any system the tool's tables do not know.
    Other,
}

/// Processor architecture of the host.
#[derive(Clone, Copy, Debug, PartialEq, Eq, Structural)]
pub enum Arch {
    X64,
    Arm64,
    /// Any architecture the tool's tables do not know.
    Other,
}

/// An (operating system, architecture) pair.
#[derive(Clone, Copy, Debug, PartialEq, Eq, Structural)]
pub struct Platform {
    pub os: Os,
    pub arch: Arch,
}

impl Os {
    /// The name under which messages mention this system.
    pub open spec fn label(self) -> Seq<char> {
        match self {
            Os::Linux => "linux"@,
            Os::MacOS => "macos"@,
            Os::Windows => "windows"@,
            Os::Other => "other"@,
        }
    }

    /// The target-triple suffix under which builds for this system are
    /// published; empty for a system without builds.
    pub open spec fn triple_suffix(self) -> Seq<char> {
        match self {
            Os::Linux => "unknown-linux-gnu"@,
            Os::MacOS => "apple-darwin"@,
            Os::Windows => "pc-windows-msvc"@,
            Os::Other => Seq::empty(),
        }
    }

    /// The suffix that this system puts on the name of an executable file.
    pub open spec fn exe_suffix(self) -> Seq<char> {
        match self {
            Os::Windows => ".exe"@,
            _ => Seq::empty(),
        }
    }

    /// Returns the name under which messages mention this system.
    pub fn name(self) -> (r: &'static str)
        ensures
            r@ == self.label(),
    {
        match self {
            Os::Linux => "linux",
            Os::MacOS => "macos",
            Os::Windows => "windows",
            Os::Other => "other",
        }
    }

    /// Returns the target-triple suffix of this system, or `None` for a
    /// system without builds.
    pub fn target_suffix(self) -> (r: Option<&'static str>)
        ensures
            r is Some <==> self != Os::Other,
            r matches Some(s) ==> s@ == self.triple_suffix(),
    {
        match self {
            Os::Linux => Some("unknown-linux-gnu"),
            Os::MacOS => Some("apple-darwin"),
            Os::Windows => Some("pc-windows-msvc"),
            Os::Other => None,
        }
    }

    /// Returns `name` as the file name of an executable on this system:
    /// with `.exe` appended on Windows, unchanged everywhere else.
    pub fn exe_name(self, name: &str) -> (r: String)
        ensures
            r@ == name@ + self.exe_suffix(),
    {
        let mut out = name.to_owned();
        match self {
            Os::Windows => {
                out.append(".exe");
            },
            _ => {
                assert(name@ + Seq::<char>::empty() =~= name@);
            },
        }
        out
    }
}

impl Arch {
    /// The name under which messages mention this architecture.
    pub open spec fn label(self) -> Seq<char> {
        match self {
            Arch::X64 => "x64"@,
            Arch::Arm64 => "arm64"@,
            Arch::Other => "other"@,
        }
    }

    /// The token that stands for this architecture in a target triple;
    /// empty for an architecture without builds.
    pub open spec fn triple_token(self) -> Seq<char> {
        match self {
            Arch::X64 => "x86_64"@,
            Arch::Arm64 => "aarch64"@,
            Arch::Other => Seq::empty(),
        }
    }

    /// Returns the name under which messages mention this architecture.
    pub fn name(self) -> (r: &'static str)
        ensures
            r@ == self.label(),
    {
        match self {
            Arch::X64 => "x64",
            Arch::Arm64 => "arm64",
            Arch::Other => "other",
        }
    }

    /// Returns the target-triple token of this architecture, or `None` for
    /// an architecture without builds.
    pub fn target_token(self) -> (r: Option<&'static str>)
        ensures
            r is Some <==> self != Arch::Other,
            r matches Some(s) ==> s@ == self.triple_token(),
    {
        match self {
            Arch::X64 => Some("x86_64"),
            Arch::Arm64 => Some("aarch64"),
            Arch::Other => None,
        }
    }
}

} // verus!
