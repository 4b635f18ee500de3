//! The host platform family and its path conventions.

use vstd::prelude::*;
use vstd::string::*;
use crate::text::{append_bytes, append_text, native};

verus! {

/// The forward slash, a path separator on every host.
pub const SLASH: u8 = 0x2f;

/// The backslash, the main path separator on Windows-like hosts.
pub const BACKSLASH: u8 = 0x5c;

/// The family of the platform that the build runs on. It decides how the NDK
/// names its prebuilt toolchain, how executables and scripts are suffixed and
/// how paths are put together.
#[derive(Clone, Copy, PartialEq, Eq, Debug, Structural)]
pub enum HostFamily {
    Linux,
    MacOs,
    Windows,
}

impl HostFamily {
    /// The NDK's name for the host's operating system.
    pub open spec fn os_name(self) -> Seq<char> {
        match self {
            HostFamily::Linux => "linux"@,
            HostFamily::MacOs => "darwin"@,
            HostFamily::Windows => "windows"@,
        }
    }

    /// What the host appends to the name of an executable.
    pub open spec fn exe_suffix(self) -> Seq<char> {
        match self {
            HostFamily::Windows => ".exe"@,
            _ => ""@,
        }
    }

    /// What the host appends to the name of a compiler-driver script.
    pub open spec fn script_suffix(self) -> Seq<char> {
        match self {
            HostFamily::Windows => ".cmd"@,
            _ => ""@,
        }
    }

    /// The byte that the host puts between two path components.
    pub open spec fn separator(self) -> u8 {
        match self {
            HostFamily::Windows => BACKSLASH,
            _ => SLASH,
        }
    }

    /// Whether the host reads `byte` as a path separator.
    pub open spec fn is_separator(self, byte: u8) -> bool {
        byte == SLASH || (self == HostFamily::Windows && byte == BACKSLASH)
    }

    /// The path `base` extended by the component `name`: a separator comes
    /// between the two unless `base` is empty or already ends in one.
    pub open spec fn joined(self, base: Seq<u8>, name: Seq<u8>) -> Seq<u8> {
        if base.len() == 0 || self.is_separator(base.last()) {
            base + name
        } else {
            base.push(self.separator()) + name
        }
    }

    /// The NDK's name for the host's operating system.
    pub fn ndk_os(self) -> (name: &'static str)
        ensures
            name@ == self.os_name(),
    {
        match self {
            HostFamily::Linux => "linux",
            HostFamily::MacOs => "darwin",
            HostFamily::Windows => "windows",
        }
    }

    /// What the host appends to the name of an executable.
    pub fn executable_suffix(self) -> (suffix: &'static str)
        ensures
            suffix@ == self.exe_suffix(),
    {
        match self {
            HostFamily::Windows => ".exe",
            _ => "",
        }
    }

    /// What the host appends to the name of a compiler-driver script.
    pub fn driver_suffix(self) -> (suffix: &'static str)
        ensures
            suffix@ == self.script_suffix(),
    {
        match self {
            HostFamily::Windows => ".cmd",
            _ => "",
        }
    }

    /// Makes sure that a component can follow `path`: appends the host's
    /// separator unless `path` is empty or ends in a separator already.
    pub fn open_component(self, path: &mut Vec<u8>)
        ensures
            final(path)@ == self.joined(old(path)@, Seq::empty()),
    {
        let n = path.len();
        if n > 0 {
            let last = path[n - 1];
            let is_sep = last == SLASH || (self == HostFamily::Windows && last == BACKSLASH);
            if !is_sep {
                let sep = match self {
                    HostFamily::Windows => BACKSLASH,
                    _ => SLASH,
                };
                path.push(sep);
            }
        }
    }

    /// Extends `path` by a component given as text.
    pub fn push_name(self, path: &mut Vec<u8>, name: &str)
        ensures
            final(path)@ == self.joined(old(path)@, native(name@)),
    {
        self.open_component(path);
        append_text(path, name);
    }

    /// Extends `path` by a component given as a native string.
    pub fn push_native(self, path: &mut Vec<u8>, name: &Vec<u8>)
        ensures
            final(path)@ == self.joined(old(path)@, name@),
    {
        self.open_component(path);
        append_bytes(path, name);
    }
}

} // verus!
