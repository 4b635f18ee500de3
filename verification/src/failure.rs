//! What can keep the build driver from being started.

use vstd::prelude::*;
use vstd::string::*;

verus! {

/// The reasons for which a run ends before the build driver is started. Each
/// holds what a message for the user has to name.
#[derive(Debug, PartialEq, Eq)]
pub enum Failure {
    /// An argument that had to give the target is not text.
    ArgumentNotText { argument: Vec<u8> },
    /// The variable that names the build driver is not set.
    DriverNotSet,
    /// An Android target is built and the variable that names the NDK's root
    /// is not set.
    NdkRootNotSet,
    /// The NDK holds no prebuilt toolchain for this host.
    ToolchainNotFound { dir: Vec<u8> },
    /// The variable that overrides the API level holds no API level.
    ApiLevelInvalid { value: Vec<u8> },
    /// The directory that holds one entry per API level could not be read.
    ApiLevelsUnreadable { dir: Vec<u8>, reason: String },
    /// No entry of that directory is named by an API level.
    ApiLevelsMissing { dir: Vec<u8> },
    /// The directory that holds the compiler's versions could not be read.
    ClangVersionsUnreadable { dir: Vec<u8>, reason: String },
    /// The directory that holds the compiler's versions is empty.
    ClangVersionMissing { dir: Vec<u8> },
    /// The directory of the runtime builtins has a path that is not text.
    RuntimeDirNotText { dir: Vec<u8> },
    /// An answer was given to another question than the one that was asked.
    UnexpectedReply,
}

/// A [`Failure`] as contracts see it.
pub enum FailureView {
    ArgumentNotText { argument: Seq<u8> },
    DriverNotSet,
    NdkRootNotSet,
    ToolchainNotFound { dir: Seq<u8> },
    ApiLevelInvalid { value: Seq<u8> },
    ApiLevelsUnreadable { dir: Seq<u8>, reason: Seq<char> },
    ApiLevelsMissing { dir: Seq<u8> },
    ClangVersionsUnreadable { dir: Seq<u8>, reason: Seq<char> },
    ClangVersionMissing { dir: Seq<u8> },
    RuntimeDirNotText { dir: Seq<u8> },
    UnexpectedReply,
}

impl View for Failure {
    type V = FailureView;

    open spec fn view(&self) -> FailureView {
        match *self {
            Failure::ArgumentNotText { argument } => FailureView::ArgumentNotText {
                argument: argument@,
            },
            Failure::DriverNotSet => FailureView::DriverNotSet,
            Failure::NdkRootNotSet => FailureView::NdkRootNotSet,
            Failure::ToolchainNotFound { dir } => FailureView::ToolchainNotFound { dir: dir@ },
            Failure::ApiLevelInvalid { value } => FailureView::ApiLevelInvalid { value: value@ },
            Failure::ApiLevelsUnreadable { dir, reason } => FailureView::ApiLevelsUnreadable {
                dir: dir@,
                reason: reason@,
            },
            Failure::ApiLevelsMissing { dir } => FailureView::ApiLevelsMissing { dir: dir@ },
            Failure::ClangVersionsUnreadable {
                dir,
                reason,
            } => FailureView::ClangVersionsUnreadable { dir: dir@, reason: reason@ },
            Failure::ClangVersionMissing { dir } => FailureView::ClangVersionMissing { dir: dir@ },
            Failure::RuntimeDirNotText { dir } => FailureView::RuntimeDirNotText { dir: dir@ },
            Failure::UnexpectedReply => FailureView::UnexpectedReply,
        }
    }
}

} // verus!
