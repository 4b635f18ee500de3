//! The variables of the process environment that decide a run.

use vstd::prelude::*;
use crate::text::optional;

verus! {

/// What the process environment holds of the variables that a run reads, each
/// as the native string that it is set to, or `None` where it is not set.
/// It is read once, before anything is decided.
#[derive(Debug, PartialEq, Eq)]
pub struct Environment {
    /// `CARGO`: the build driver to start.
    pub driver: Option<Vec<u8>>,
    /// `ANDROID_NDK_ROOT`: the root directory of the NDK.
    pub ndk_root: Option<Vec<u8>>,
    /// `ANDROID_API`: the API level to build for, in place of the highest one
    /// that the NDK offers.
    pub api_level: Option<Vec<u8>>,
    /// `CARGO_ENCODED_RUSTFLAGS`: the global compiler flags, separated by
    /// unit separators.
    pub encoded_flags: Option<Vec<u8>>,
    /// `RUSTFLAGS`: the global compiler flags, separated by spaces.
    pub plain_flags: Option<Vec<u8>>,
}

/// An [`Environment`] as contracts see it.
pub struct EnvironmentView {
    pub driver: Option<Seq<u8>>,
    pub ndk_root: Option<Seq<u8>>,
    pub api_level: Option<Seq<u8>>,
    pub encoded_flags: Option<Seq<u8>>,
    pub plain_flags: Option<Seq<u8>>,
}

impl View for Environment {
    type V = EnvironmentView;

    open spec fn view(&self) -> EnvironmentView {
        EnvironmentView {
            driver: optional(self.driver),
            ndk_root: optional(self.ndk_root),
            api_level: optional(self.api_level),
            encoded_flags: optional(self.encoded_flags),
            plain_flags: optional(self.plain_flags),
        }
    }
}

} // verus!
