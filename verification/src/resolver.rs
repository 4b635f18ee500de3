//! Finding the toolchain that serves a target.
//!
//! Resolution goes by steps. [`start`] reads the environment and either ends
//! at once or asks about the file system; [`Resolver::advance`] takes the
//! answer and ends or asks again. At most three questions are asked: whether
//! the toolchain is there, which API levels it offers (unless one is set), and
//! which version of the compiler it holds (for the one target that needs the
//! runtime builtins). There is no result before the last answer is in.

use vstd::prelude::*;
use vstd::string::*;
use vstd::utf8::*;
use crate::api::{highest_level, highest_of, level_of, parse_level};
use crate::environment::{Environment, EnvironmentView};
use crate::failure::{Failure, FailureView};
use crate::flags::{merge_flags, merged_flags};
use crate::host::HostFamily;
use crate::layout::{
    api_dir, api_dir_of, archiver, archiver_of, clang_dir, clang_dir_of, compiler, compiler_of,
    runtime_dir, runtime_dir_of, sysroot, sysroot_of, toolchain_dir, toolchain_dir_of,
};
use crate::probe::{Query, QueryView, Reply, ReplyView};
use crate::text::{copy_bytes, decode, optional};
use crate::triple::{needs_builtins, wants_builtins};

verus! {

/// What resolution finds: where the pieces of the toolchain are, and the API
/// level to build for.
#[derive(Debug, PartialEq, Eq)]
pub struct Toolchain {
    /// The root directory of the NDK.
    pub ndk_root: Vec<u8>,
    /// The directory of the prebuilt toolchain for the host.
    pub toolchain_dir: Vec<u8>,
    /// The sysroot.
    pub sysroot: Vec<u8>,
    /// The API level.
    pub api_level: u8,
    /// The archiver.
    pub archiver: Vec<u8>,
    /// The compiler driver, which is the linker too.
    pub compiler: Vec<u8>,
    /// The global compiler flags for the build, where the target needs the
    /// runtime builtins linked in.
    pub compiler_flags: Option<String>,
}

/// A [`Toolchain`] as contracts see it.
pub struct ToolchainView {
    pub ndk_root: Seq<u8>,
    pub toolchain_dir: Seq<u8>,
    pub sysroot: Seq<u8>,
    pub api_level: u8,
    pub archiver: Seq<u8>,
    pub compiler: Seq<u8>,
    pub compiler_flags: Option<Seq<char>>,
}

impl View for Toolchain {
    type V = ToolchainView;

    open spec fn view(&self) -> ToolchainView {
        ToolchainView {
            ndk_root: self.ndk_root@,
            toolchain_dir: self.toolchain_dir@,
            sysroot: self.sysroot@,
            api_level: self.api_level,
            archiver: self.archiver@,
            compiler: self.compiler@,
            compiler_flags: match self.compiler_flags {
                Some(flags) => Some(flags@),
                None => None,
            },
        }
    }
}

/// The question that a resolution waits to have answered.
#[derive(Clone, Copy, Debug)]
pub enum Stage {
    /// Whether the toolchain directory exists.
    Toolchain,
    /// Which API levels the toolchain offers.
    ApiLevels,
    /// Which version of the compiler the toolchain holds, the API level being
    /// settled.
    ClangVersion { api: u8 },
}

/// A resolution that waits for an answer.
#[derive(Debug)]
pub struct Resolver {
    host: HostFamily,
    target: String,
    root: Vec<u8>,
    api_level: Option<Vec<u8>>,
    encoded_flags: Option<Vec<u8>>,
    plain_flags: Option<Vec<u8>>,
    stage: Stage,
}

/// A [`Resolver`] as contracts see it: what it was started with, and the
/// question that it waits to have answered.
pub struct ResolverView {
    pub host: HostFamily,
    pub target: Seq<char>,
    pub root: Seq<u8>,
    pub api_level: Option<Seq<u8>>,
    pub encoded_flags: Option<Seq<u8>>,
    pub plain_flags: Option<Seq<u8>>,
    pub stage: Stage,
}

impl View for Resolver {
    type V = ResolverView;

    closed spec fn view(&self) -> ResolverView {
        ResolverView {
            host: self.host,
            target: self.target@,
            root: self.root@,
            api_level: optional(self.api_level),
            encoded_flags: optional(self.encoded_flags),
            plain_flags: optional(self.plain_flags),
            stage: self.stage,
        }
    }
}

/// Where a resolution stands after a step.
#[derive(Debug)]
pub enum Progress {
    /// The caller looks the query up and hands the answer to
    /// [`Resolver::advance`].
    Ask(Resolver, Query),
    /// Resolution has ended.
    Done(Result<Toolchain, Failure>),
}

/// A [`Progress`] as contracts see it.
pub enum ProgressView {
    Ask(ResolverView, QueryView),
    Done(Result<ToolchainView, FailureView>),
}

impl View for Progress {
    type V = ProgressView;

    open spec fn view(&self) -> ProgressView {
        match *self {
            Progress::Ask(resolver, query) => ProgressView::Ask(resolver@, query@),
            Progress::Done(Ok(toolchain)) => ProgressView::Done(Ok(toolchain@)),
            Progress::Done(Err(failure)) => ProgressView::Done(Err(failure@)),
        }
    }
}

/// The text that a variable holds: its value where it is set and is text.
pub open spec fn text_of(value: Option<Seq<u8>>) -> Option<Seq<char>> {
    match value {
        Some(bytes) if valid_utf8(bytes) => Some(decode_utf8(bytes)),
        _ => None,
    }
}

impl ResolverView {
    /// The directory of the prebuilt toolchain.
    pub open spec fn toolchain_dir(self) -> Seq<u8> {
        toolchain_dir_of(self.host, self.root)
    }

    /// The same resolution, waiting for another answer.
    pub open spec fn at(self, stage: Stage) -> ResolverView {
        ResolverView { stage, ..self }
    }

    /// The toolchain that is found once the API level is settled and, where
    /// the target needs them, the directory of the runtime builtins is known.
    pub open spec fn toolchain(self, api: u8, runtime_dir: Option<Seq<char>>) -> ToolchainView {
        ToolchainView {
            ndk_root: self.root,
            toolchain_dir: self.toolchain_dir(),
            sysroot: sysroot_of(self.host, self.toolchain_dir()),
            api_level: api,
            archiver: archiver_of(self.host, self.toolchain_dir()),
            compiler: compiler_of(self.host, self.toolchain_dir(), self.target, api),
            compiler_flags: match runtime_dir {
                Some(dir) => Some(
                    merged_flags(text_of(self.encoded_flags), text_of(self.plain_flags), dir),
                ),
                None => None,
            },
        }
    }

    /// What follows once the API level is settled: the target that needs the
    /// runtime builtins asks for the compiler's version, any other is done.
    pub open spec fn with_level(self, api: u8) -> ProgressView {
        if needs_builtins(self.target) {
            ProgressView::Ask(
                self.at(Stage::ClangVersion { api }),
                QueryView::First { dir: clang_dir_of(self.host, self.toolchain_dir()) },
            )
        } else {
            ProgressView::Done(Ok(self.toolchain(api, None)))
        }
    }

    /// What follows once it is known whether the toolchain directory exists.
    pub open spec fn with_toolchain(self, found: bool) -> ProgressView {
        if !found {
            ProgressView::Done(Err(FailureView::ToolchainNotFound { dir: self.toolchain_dir() }))
        } else {
            match self.api_level {
                Some(value) => match level_of(value) {
                    Some(api) => self.with_level(api),
                    None => ProgressView::Done(Err(FailureView::ApiLevelInvalid { value })),
                },
                None => ProgressView::Ask(
                    self.at(Stage::ApiLevels),
                    QueryView::Names {
                        dir: api_dir_of(self.host, self.toolchain_dir(), self.target),
                    },
                ),
            }
        }
    }

    /// What follows once the names under the directory of API levels are
    /// known.
    pub open spec fn with_names(self, names: Seq<Option<Seq<u8>>>) -> ProgressView {
        match highest_of(names) {
            Some(api) => self.with_level(api),
            None => ProgressView::Done(
                Err(
                    FailureView::ApiLevelsMissing {
                        dir: api_dir_of(self.host, self.toolchain_dir(), self.target),
                    },
                ),
            ),
        }
    }

    /// What follows once the first entry under the directory of the
    /// compiler's versions is known.
    pub open spec fn with_version(self, api: u8, first: Option<Seq<u8>>) -> ProgressView {
        match first {
            None => ProgressView::Done(
                Err(
                    FailureView::ClangVersionMissing {
                        dir: clang_dir_of(self.host, self.toolchain_dir()),
                    },
                ),
            ),
            Some(version) => {
                let dir = runtime_dir_of(self.host, self.toolchain_dir(), version);
                if valid_utf8(dir) {
                    ProgressView::Done(Ok(self.toolchain(api, Some(decode_utf8(dir)))))
                } else {
                    ProgressView::Done(Err(FailureView::RuntimeDirNotText { dir }))
                }
            },
        }
    }

    /// What follows a reply.
    pub open spec fn advanced(self, reply: ReplyView) -> ProgressView {
        match (self.stage, reply) {
            (Stage::Toolchain, ReplyView::Exists(found)) => self.with_toolchain(found),
            (Stage::ApiLevels, ReplyView::Names(names)) => self.with_names(names),
            (Stage::ApiLevels, ReplyView::Unreadable(reason)) => ProgressView::Done(
                Err(
                    FailureView::ApiLevelsUnreadable {
                        dir: api_dir_of(self.host, self.toolchain_dir(), self.target),
                        reason,
                    },
                ),
            ),
            (Stage::ClangVersion { api }, ReplyView::First(first)) => self.with_version(
                api,
                first,
            ),
            (Stage::ClangVersion { api }, ReplyView::Unreadable(reason)) => ProgressView::Done(
                Err(
                    FailureView::ClangVersionsUnreadable {
                        dir: clang_dir_of(self.host, self.toolchain_dir()),
                        reason,
                    },
                ),
            ),
            _ => ProgressView::Done(Err(FailureView::UnexpectedReply)),
        }
    }
}

/// How resolution starts for a target on a host in an environment.
pub open spec fn started(
    target: Seq<char>,
    host: HostFamily,
    env: EnvironmentView,
) -> ProgressView {
    match env.ndk_root {
        None => ProgressView::Done(Err(FailureView::NdkRootNotSet)),
        Some(root) => ProgressView::Ask(
            ResolverView {
                host,
                target,
                root,
                api_level: env.api_level,
                encoded_flags: env.encoded_flags,
                plain_flags: env.plain_flags,
                stage: Stage::Toolchain,
            },
            QueryView::Exists { path: toolchain_dir_of(host, root) },
        ),
    }
}

/// A copy of a native string that may be missing.
fn copy_optional(value: &Option<Vec<u8>>) -> (copy: Option<Vec<u8>>)
    ensures
        optional(copy) == optional(*value),
{
    match value {
        Some(bytes) => Some(copy_bytes(bytes)),
        None => None,
    }
}

/// The text that a variable holds.
fn read_text(value: &Option<Vec<u8>>) -> (text: Option<String>)
    ensures
        match text {
            Some(t) => text_of(optional(*value)) == Some(t@),
            None => text_of(optional(*value)) is None,
        },
{
    match value {
        Some(bytes) => decode(bytes),
        None => None,
    }
}

/// Starts the resolution of the toolchain for `target`.
///
/// Fails at once where the NDK's root is not set. Otherwise asks whether the
/// toolchain directory for the host exists.
pub fn start(target: &str, host: HostFamily, env: &Environment) -> (progress: Progress)
    ensures
        progress@ == started(target@, host, env@),
{
    match &env.ndk_root {
        None => Progress::Done(Err(Failure::NdkRootNotSet)),
        Some(root) => {
            let resolver = Resolver {
                host,
                target: String::from_str(target),
                root: copy_bytes(root),
                api_level: copy_optional(&env.api_level),
                encoded_flags: copy_optional(&env.encoded_flags),
                plain_flags: copy_optional(&env.plain_flags),
                stage: Stage::Toolchain,
            };
            let path = toolchain_dir(host, root);
            Progress::Ask(resolver, Query::Exists { path })
        },
    }
}

impl Resolver {
    /// The target whose toolchain is looked for.
    pub fn target(&self) -> (target: &str)
        ensures
            target@ == self@.target,
    {
        self.target.as_str()
    }

    /// The toolchain that is found.
    fn finish(self, api: u8, runtime_dir: Option<String>) -> (toolchain: Toolchain)
        ensures
            toolchain@ == self@.toolchain(
                api,
                match runtime_dir {
                    Some(dir) => Some(dir@),
                    None => None,
                },
            ),
    {
        let dir = toolchain_dir(self.host, &self.root);
        let compiler_flags = match runtime_dir {
            Some(runtime) => {
                let encoded = read_text(&self.encoded_flags);
                let plain = read_text(&self.plain_flags);
                let encoded_text = match &encoded {
                    Some(t) => Some(t.as_str()),
                    None => None,
                };
                let plain_text = match &plain {
                    Some(t) => Some(t.as_str()),
                    None => None,
                };
                Some(merge_flags(encoded_text, plain_text, runtime.as_str()))
            },
            None => None,
        };
        Toolchain {
            sysroot: sysroot(self.host, &dir),
            api_level: api,
            archiver: archiver(self.host, &dir),
            compiler: compiler(self.host, &dir, self.target.as_str(), api),
            compiler_flags,
            toolchain_dir: dir,
            ndk_root: self.root,
        }
    }

    /// Goes on once the API level is settled.
    fn settle_level(self, api: u8) -> (progress: Progress)
        ensures
            progress@ == self@.with_level(api),
    {
        if wants_builtins(self.target.as_str()) {
            let toolchain = toolchain_dir(self.host, &self.root);
            let dir = clang_dir(self.host, &toolchain);
            let mut next = self;
            next.stage = Stage::ClangVersion { api };
            Progress::Ask(next, Query::First { dir })
        } else {
            Progress::Done(Ok(self.finish(api, None)))
        }
    }

    /// Takes the answer to the question that was asked, and says what comes
    /// next: another question, the toolchain, or the reason for which there
    /// is none. An answer of another kind than the question ends the
    /// resolution with [`Failure::UnexpectedReply`].
    pub fn advance(self, reply: Reply) -> (progress: Progress)
        ensures
            progress@ == self@.advanced(reply@),
    {
        let toolchain = toolchain_dir(self.host, &self.root);
        match (self.stage, reply) {
            (Stage::Toolchain, Reply::Exists(found)) => {
                if !found {
                    return Progress::Done(Err(Failure::ToolchainNotFound { dir: toolchain }));
                }
                match &self.api_level {
                    Some(value) => match parse_level(value) {
                        Some(api) => self.settle_level(api),
                        None => Progress::Done(
                            Err(Failure::ApiLevelInvalid { value: copy_bytes(value) }),
                        ),
                    },
                    None => {
                        let dir = api_dir(self.host, &toolchain, self.target.as_str());
                        let mut next = self;
                        next.stage = Stage::ApiLevels;
                        Progress::Ask(next, Query::Names { dir })
                    },
                }
            },
            (Stage::ApiLevels, Reply::Names(names)) => match highest_level(&names) {
                Some(api) => self.settle_level(api),
                None => Progress::Done(
                    Err(
                        Failure::ApiLevelsMissing {
                            dir: api_dir(self.host, &toolchain, self.target.as_str()),
                        },
                    ),
                ),
            },
            (Stage::ApiLevels, Reply::Unreadable(reason)) => Progress::Done(
                Err(
                    Failure::ApiLevelsUnreadable {
                        dir: api_dir(self.host, &toolchain, self.target.as_str()),
                        reason,
                    },
                ),
            ),
            (Stage::ClangVersion { api }, Reply::First(first)) => match first {
                None => Progress::Done(
                    Err(Failure::ClangVersionMissing { dir: clang_dir(self.host, &toolchain) }),
                ),
                Some(version) => {
                    let dir = runtime_dir(self.host, &toolchain, &version);
                    match decode(&dir) {
                        Some(text) => Progress::Done(Ok(self.finish(api, Some(text)))),
                        None => Progress::Done(Err(Failure::RuntimeDirNotText { dir })),
                    }
                },
            },
            (Stage::ClangVersion { api }, Reply::Unreadable(reason)) => Progress::Done(
                Err(
                    Failure::ClangVersionsUnreadable {
                        dir: clang_dir(self.host, &toolchain),
                        reason,
                    },
                ),
            ),
            _ => Progress::Done(Err(Failure::UnexpectedReply)),
        }
    }
}

} // verus!
