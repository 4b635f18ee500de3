//! What holds of every run, whatever the arguments, the environment and the
//! file system are.
//!
//! The file system enters as a function from questions to answers. A run asks
//! at most three questions, so its end is what stands after three rounds of
//! asking and answering.

use vstd::prelude::*;
use vstd::utf8::*;
use crate::api::{entry_level, highest_of, law_highest_is_maximum, level_of};
use crate::args::{forwarded_of, target_of};
use crate::environment::EnvironmentView;
use crate::failure::FailureView;
use crate::flags::{
    builtins_tokens, join, law_encoded_flags_are_kept, merged_flags, UNIT_SEPARATOR,
};
use crate::host::HostFamily;
use crate::layout::{
    api_dir_of, archiver_of, bin_dir_of, clang_dir_of, compiler_name_of, compiler_of,
    runtime_dir_of, sysroot_of, toolchain_dir_of,
};
use crate::probe::{QueryView, ReplyView};
use crate::resolver::{started, text_of, ProgressView, ToolchainView};
use crate::session::{applied, begun, followed, LaunchView, StepView};
use crate::text::native;
use crate::triple::{is_android_triple, needs_builtins};
use crate::variables::{
    archiver_variable, compiler_variable, law_variable_names_differ, linker_variable,
    variables_of, VariableView, FLAGS_VARIABLE,
};

verus! {

/// A resolution after one more round: where it asks, the answer is taken from
/// `world`; where it has ended, it stays as it is.
pub open spec fn resolved_once(
    progress: ProgressView,
    world: spec_fn(QueryView) -> ReplyView,
) -> ProgressView {
    match progress {
        ProgressView::Ask(resolver, query) => resolver.advanced(world(query)),
        ended => ended,
    }
}

/// The end of the resolution for a target on a host in an environment, the
/// file system answering as `world` does.
#[verifier::opaque]
pub open spec fn resolution(
    target: Seq<char>,
    host: HostFamily,
    env: EnvironmentView,
    world: spec_fn(QueryView) -> ReplyView,
) -> ProgressView {
    resolved_once(resolved_once(resolved_once(started(target, host, env), world), world), world)
}

/// A run after one more round.
pub open spec fn answered_once(step: StepView, world: spec_fn(QueryView) -> ReplyView) -> StepView {
    match step {
        StepView::Ask(session, query) => session.answered(world(query)),
        ended => ended,
    }
}

/// The end of a run with given arguments on a host in an environment, the
/// file system answering as `world` does.
#[verifier::opaque]
pub open spec fn outcome(
    argv: Seq<Seq<u8>>,
    env: EnvironmentView,
    host: HostFamily,
    world: spec_fn(QueryView) -> ReplyView,
) -> StepView {
    answered_once(answered_once(answered_once(begun(argv, env, host), world), world), world)
}

/// The API level that a build in `env` gets from a toolchain directory, the
/// file system answering as `world` does: the one that the environment sets,
/// else the highest that the directory of API levels offers.
pub open spec fn level_for(
    target: Seq<char>,
    host: HostFamily,
    toolchain: Seq<u8>,
    env: EnvironmentView,
    world: spec_fn(QueryView) -> ReplyView,
) -> Option<u8> {
    match env.api_level {
        Some(value) => level_of(value),
        None => match world(QueryView::Names { dir: api_dir_of(host, toolchain, target) }) {
            ReplyView::Names(names) => highest_of(names),
            _ => None,
        },
    }
}

/// The directory of the runtime builtins that `world` shows below a toolchain
/// directory, as text, where there is one and its path is text.
pub open spec fn runtime_dir_in(
    host: HostFamily,
    toolchain: Seq<u8>,
    world: spec_fn(QueryView) -> ReplyView,
) -> Option<Seq<char>> {
    match world(QueryView::First { dir: clang_dir_of(host, toolchain) }) {
        ReplyView::First(Some(version)) if valid_utf8(runtime_dir_of(host, toolchain, version)) => {
            Some(decode_utf8(runtime_dir_of(host, toolchain, version)))
        },
        _ => None,
    }
}

/// The global compiler flags that a build in `env` gets: for the target that
/// needs the runtime builtins, what is already set followed by the flags for
/// the builtins that `world` shows; for any other target, none.
pub open spec fn flags_for(
    target: Seq<char>,
    host: HostFamily,
    toolchain: Seq<u8>,
    env: EnvironmentView,
    world: spec_fn(QueryView) -> ReplyView,
) -> Option<Seq<char>> {
    match runtime_dir_in(host, toolchain, world) {
        Some(dir) if needs_builtins(target) => Some(
            merged_flags(text_of(env.encoded_flags), text_of(env.plain_flags), dir),
        ),
        _ => None,
    }
}

/// Whether `world` shows a toolchain below `root` that can serve `target` in
/// `env`: the toolchain directory for the host exists; an API level is set
/// and valid, or the directory of API levels can be read and offers one; and
/// where the target needs the runtime builtins, the directory of the
/// compiler's versions has a first entry and the path of the builtins below
/// it is text.
pub open spec fn serves(
    world: spec_fn(QueryView) -> ReplyView,
    root: Seq<u8>,
    target: Seq<char>,
    host: HostFamily,
    env: EnvironmentView,
) -> bool {
    let toolchain = toolchain_dir_of(host, root);
    &&& world(QueryView::Exists { path: toolchain }) == ReplyView::Exists(true)
    &&& level_for(target, host, toolchain, env, world) is Some
    &&& needs_builtins(target) ==> runtime_dir_in(host, toolchain, world) is Some
}

/// Whether a resolution, where it still asks, is about `target`.
pub open spec fn is_about(progress: ProgressView, target: Seq<char>) -> bool {
    progress matches ProgressView::Ask(resolver, _) ==> resolver.target == target
}

/// What begins a path begins the path extended by a component.
proof fn lemma_join_stays_below(host: HostFamily, root: Seq<u8>, base: Seq<u8>, name: Seq<u8>)
    requires
        root.is_prefix_of(base),
    ensures
        root.is_prefix_of(host.joined(base, name)),
{
    let path = host.joined(base, name);
    assert(base.is_prefix_of(path));
    assert forall|i: int| 0 <= i < root.len() implies root[i] == path.subrange(
        0,
        root.len() as int,
    )[i] by {
        assert(root[i] == base.subrange(0, root.len() as int)[i]);
        assert(base[i] == path.subrange(0, base.len() as int)[i]);
    }
}

/// The toolchain directory lies below the NDK's root.
proof fn lemma_toolchain_below_root(host: HostFamily, root: Seq<u8>)
    ensures
        root.is_prefix_of(toolchain_dir_of(host, root)),
{
    let a = host.joined(root, native("toolchains"@));
    let b = host.joined(a, native("llvm"@));
    let c = host.joined(b, native("prebuilt"@));
    assert(root.is_prefix_of(root));
    lemma_join_stays_below(host, root, root, native("toolchains"@));
    lemma_join_stays_below(host, root, a, native("llvm"@));
    lemma_join_stays_below(host, root, b, native("prebuilt"@));
    lemma_join_stays_below(host, root, c, native(host.os_name()) + native("-x86_64"@));
}

/// Whatever the NDK's root is, the toolchain directory, the sysroot, the
/// archiver and the compiler driver all lie below it: their paths begin with
/// the root.
pub proof fn law_layout_lies_below_root(host: HostFamily, root: Seq<u8>, target: Seq<char>, api: u8)
    ensures
        root.is_prefix_of(toolchain_dir_of(host, root)),
        root.is_prefix_of(sysroot_of(host, toolchain_dir_of(host, root))),
        root.is_prefix_of(archiver_of(host, toolchain_dir_of(host, root))),
        root.is_prefix_of(compiler_of(host, toolchain_dir_of(host, root), target, api)),
{
    let dir = toolchain_dir_of(host, root);
    lemma_toolchain_below_root(host, root);
    lemma_join_stays_below(host, root, dir, native("sysroot"@));
    lemma_join_stays_below(host, root, dir, native("bin"@));
    lemma_join_stays_below(
        host,
        root,
        bin_dir_of(host, dir),
        native("llvm-ar"@) + native(host.exe_suffix()),
    );
    lemma_join_stays_below(
        host,
        root,
        bin_dir_of(host, dir),
        compiler_name_of(host, target, api),
    );
}

/// Three answers always suffice: after them a resolution has ended.
pub proof fn law_resolution_ends(
    target: Seq<char>,
    host: HostFamily,
    env: EnvironmentView,
    world: spec_fn(QueryView) -> ReplyView,
)
    ensures
        resolution(target, host, env, world) is Done,
{
    reveal(resolution);
}

/// Where the file system shows a toolchain that serves the target,
/// resolution succeeds. The toolchain is the one below the NDK's root, at the
/// API level that the environment sets or, where it sets none, at the highest
/// that the toolchain offers; and its directory, its sysroot, its archiver
/// and its compiler driver all lie below the NDK's root.
pub proof fn law_resolution_succeeds(
    target: Seq<char>,
    host: HostFamily,
    env: EnvironmentView,
    world: spec_fn(QueryView) -> ReplyView,
)
    requires
        env.ndk_root is Some,
        serves(world, env.ndk_root->0, target, host, env),
    ensures
        resolution(target, host, env, world) matches ProgressView::Done(Ok(found)) && {
            let root = env.ndk_root->0;
            let dir = toolchain_dir_of(host, root);
            let api = level_for(target, host, dir, env, world)->0;
            &&& found.ndk_root == root
            &&& found.toolchain_dir == dir
            &&& found.api_level == api
            &&& found.sysroot == sysroot_of(host, dir)
            &&& found.archiver == archiver_of(host, dir)
            &&& found.compiler == compiler_of(host, dir, target, api)
            &&& root.is_prefix_of(found.toolchain_dir)
            &&& root.is_prefix_of(found.sysroot)
            &&& root.is_prefix_of(found.archiver)
            &&& root.is_prefix_of(found.compiler)
            &&& found.compiler_flags == flags_for(target, host, dir, env, world)
            &&& found.compiler_flags is Some <==> needs_builtins(target)
        },
{
    reveal(resolution);
    let root = env.ndk_root->0;
    let dir = toolchain_dir_of(host, root);
    let api = level_for(target, host, dir, env, world)->0;
    law_layout_lies_below_root(host, root, target, api);
}

/// Resolution succeeds only where the NDK's root is set and the file system
/// shows a toolchain below it that serves the target. In particular no
/// toolchain is found unless its directory was looked for and exists.
pub proof fn law_success_needs_a_toolchain(
    target: Seq<char>,
    host: HostFamily,
    env: EnvironmentView,
    world: spec_fn(QueryView) -> ReplyView,
)
    requires
        resolution(target, host, env, world) matches ProgressView::Done(Ok(_)),
    ensures
        env.ndk_root is Some,
        serves(world, env.ndk_root->0, target, host, env),
        world(QueryView::Exists { path: toolchain_dir_of(host, env.ndk_root->0) })
            == ReplyView::Exists(true),
{
    reveal(resolution);
}

/// An API level that the environment sets always wins: where the toolchain
/// serves the target, the build is for that level, whatever levels the
/// toolchain offers.
pub proof fn law_set_level_wins(
    target: Seq<char>,
    host: HostFamily,
    env: EnvironmentView,
    world: spec_fn(QueryView) -> ReplyView,
)
    requires
        env.ndk_root is Some,
        env.api_level is Some,
        serves(world, env.ndk_root->0, target, host, env),
    ensures
        resolution(target, host, env, world) matches ProgressView::Done(Ok(found)) && Some(
            found.api_level,
        ) == level_of(env.api_level->0),
{
    law_resolution_succeeds(target, host, env, world);
}

/// Where the environment sets no API level, the build is for the highest
/// level that an entry of the toolchain's directory of API levels is named
/// by: one of the entries writes that level, and none writes a higher one.
pub proof fn law_highest_level_is_found(
    target: Seq<char>,
    host: HostFamily,
    env: EnvironmentView,
    world: spec_fn(QueryView) -> ReplyView,
    names: Seq<Option<Seq<u8>>>,
)
    requires
        env.ndk_root is Some,
        env.api_level is None,
        serves(world, env.ndk_root->0, target, host, env),
        world(
            QueryView::Names {
                dir: api_dir_of(host, toolchain_dir_of(host, env.ndk_root->0), target),
            },
        ) == ReplyView::Names(names),
    ensures
        resolution(target, host, env, world) matches ProgressView::Done(Ok(found)) && {
            &&& exists|i: int|
                0 <= i < names.len() && entry_level(#[trigger] names[i]) == Some(
                    found.api_level,
                )
            &&& forall|i: int|
                0 <= i < names.len() ==> (entry_level(#[trigger] names[i]) matches Some(level)
                    ==> level <= found.api_level)
        },
{
    law_resolution_succeeds(target, host, env, world);
    law_highest_is_maximum(names);
}

/// Where a toolchain comes with compiler flags, they are the value of the
/// last of its variables.
proof fn lemma_flags_variable(target: Seq<char>, found: ToolchainView)
    requires
        found.compiler_flags is Some,
    ensures
        variables_of(target, found).len() == 5,
        variables_of(target, found)[4].name == FLAGS_VARIABLE@,
        variables_of(target, found)[4].value == native(found.compiler_flags->0),
{
}

/// For the target that needs the runtime builtins, where the global compiler
/// flags are already set in the encoded form and are text, the flags of the
/// build are the flags that were set, as they were, followed by exactly the
/// search path of the runtime builtins and the instruction to link them,
/// still in the encoded form.
pub proof fn law_flags_are_appended(
    target: Seq<char>,
    host: HostFamily,
    env: EnvironmentView,
    world: spec_fn(QueryView) -> ReplyView,
)
    requires
        needs_builtins(target),
        env.ndk_root is Some,
        serves(world, env.ndk_root->0, target, host, env),
        text_of(env.encoded_flags) is Some,
    ensures
        resolution(target, host, env, world) matches ProgressView::Done(Ok(found)) && {
            let set = text_of(env.encoded_flags)->0;
            let dir = runtime_dir_in(host, toolchain_dir_of(host, env.ndk_root->0), world)->0;
            let flags = set.push(UNIT_SEPARATOR) + join(builtins_tokens(dir), UNIT_SEPARATOR);
            &&& found.compiler_flags == Some(flags)
            &&& variables_of(target, found).len() == 5
            &&& variables_of(target, found)[4].name == FLAGS_VARIABLE@
            &&& variables_of(target, found)[4].value == native(flags)
        },
{
    law_resolution_succeeds(target, host, env, world);
    let set = text_of(env.encoded_flags)->0;
    let dir = runtime_dir_in(host, toolchain_dir_of(host, env.ndk_root->0), world)->0;
    let found = resolution(target, host, env, world)->Done_0->Ok_0;
    assert(found.compiler_flags == Some(
        merged_flags(Some(set), text_of(env.plain_flags), dir),
    ));
    law_encoded_flags_are_kept(set, text_of(env.plain_flags), dir);
    lemma_flags_variable(target, found);
}

/// Three answers always suffice: after them a run has ended in a launch or in
/// a failure.
pub proof fn law_run_ends(
    argv: Seq<Seq<u8>>,
    env: EnvironmentView,
    host: HostFamily,
    world: spec_fn(QueryView) -> ReplyView,
)
    ensures
        !(outcome(argv, env, host, world) is Ask),
{
    reveal(outcome);
}

/// Whatever is launched is the build driver that the environment names, with
/// the arguments of the run after the wrapper's own, unchanged and in order.
pub proof fn law_launch_forwards_arguments(
    argv: Seq<Seq<u8>>,
    env: EnvironmentView,
    host: HostFamily,
    world: spec_fn(QueryView) -> ReplyView,
)
    ensures
        outcome(argv, env, host, world) matches StepView::Launch(launch) ==> {
            &&& env.driver == Some(launch.program)
            &&& launch.arguments == forwarded_of(argv)
        },
{
    reveal(outcome);
}

/// Without the NDK's root no Android target is built: the run fails, before
/// any question is asked, and nothing is launched.
pub proof fn law_no_launch_without_ndk_root(
    argv: Seq<Seq<u8>>,
    env: EnvironmentView,
    host: HostFamily,
    world: spec_fn(QueryView) -> ReplyView,
    target: Seq<char>,
)
    requires
        target_of(forwarded_of(argv)) == Ok::<Option<Seq<char>>, FailureView>(Some(target)),
        is_android_triple(target),
        env.ndk_root is None,
    ensures
        begun(argv, env, host) is Fail,
        env.driver is Some ==> begun(argv, env, host) == StepView::Fail(
            FailureView::NdkRootNotSet,
        ),
        outcome(argv, env, host, world) == begun(argv, env, host),
{
    reveal(outcome);
}

/// A run that asks for no target, or for one that is no Android target, adds
/// no variable: the build driver is launched with the arguments of the run
/// and inherits the environment as it is. No question is asked.
pub proof fn law_other_targets_launch_as_is(
    argv: Seq<Seq<u8>>,
    env: EnvironmentView,
    host: HostFamily,
    world: spec_fn(QueryView) -> ReplyView,
)
    requires
        env.driver is Some,
        target_of(forwarded_of(argv)) matches Ok(target) && (target matches Some(t)
            ==> !is_android_triple(t)),
    ensures
        begun(argv, env, host) == StepView::Launch(
            LaunchView {
                program: env.driver->0,
                arguments: forwarded_of(argv),
                variables: Seq::empty(),
            },
        ),
        outcome(argv, env, host, world) == begun(argv, env, host),
        forall|inherited: Map<Seq<u8>, Seq<u8>>|
            (#[trigger] begun(argv, env, host)->Launch_0.environment(inherited)) == inherited,
{
    reveal(outcome);
}

/// One round of a run is one round of its resolution.
proof fn lemma_round(
    program: Seq<u8>,
    arguments: Seq<Seq<u8>>,
    target: Seq<char>,
    progress: ProgressView,
    world: spec_fn(QueryView) -> ReplyView,
)
    requires
        is_about(progress, target),
    ensures
        answered_once(followed(program, arguments, target, progress), world) == followed(
            program,
            arguments,
            target,
            resolved_once(progress, world),
        ),
        is_about(resolved_once(progress, world), target),
{
}

/// A run for an Android target, once its arguments are read and the build
/// driver is known, ends as the resolution of the toolchain ends: in the
/// launch with the variables of the toolchain found, or in the failure of the
/// resolution.
pub proof fn law_run_follows_resolution(
    argv: Seq<Seq<u8>>,
    env: EnvironmentView,
    host: HostFamily,
    world: spec_fn(QueryView) -> ReplyView,
    target: Seq<char>,
)
    requires
        target_of(forwarded_of(argv)) == Ok::<Option<Seq<char>>, FailureView>(Some(target)),
        is_android_triple(target),
        env.driver is Some,
    ensures
        outcome(argv, env, host, world) == followed(
            env.driver->0,
            forwarded_of(argv),
            target,
            resolution(target, host, env, world),
        ),
{
    reveal(outcome);
    reveal(resolution);
    let program = env.driver->0;
    let arguments = forwarded_of(argv);
    let first = started(target, host, env);
    let second = resolved_once(first, world);
    let third = resolved_once(second, world);
    assert(begun(argv, env, host) == followed(program, arguments, target, first));
    lemma_round(program, arguments, target, first, world);
    lemma_round(program, arguments, target, second, world);
    lemma_round(program, arguments, target, third, world);
}

/// The first, second and fourth variable of a toolchain name the archiver,
/// the compiler and the linker.
proof fn lemma_tool_variables(target: Seq<char>, found: ToolchainView)
    ensures
        variables_of(target, found).len() >= 4,
        variables_of(target, found)[0].name == archiver_variable(target),
        variables_of(target, found)[0].value == found.archiver,
        variables_of(target, found)[1].name == compiler_variable(target),
        variables_of(target, found)[1].value == found.compiler,
        variables_of(target, found)[3].name == linker_variable(target),
        variables_of(target, found)[3].value == found.compiler,
{
}

/// A run for an Android target, in an environment that names the build
/// driver and the NDK's root, with a file system that shows a toolchain
/// serving the target, ends in a launch. Its variables are those of the
/// toolchain found, and the archiver, the compiler and the linker that they
/// name all lie below the NDK's root.
pub proof fn law_tools_lie_below_ndk_root(
    argv: Seq<Seq<u8>>,
    env: EnvironmentView,
    host: HostFamily,
    world: spec_fn(QueryView) -> ReplyView,
    target: Seq<char>,
)
    requires
        target_of(forwarded_of(argv)) == Ok::<Option<Seq<char>>, FailureView>(Some(target)),
        is_android_triple(target),
        env.driver is Some,
        env.ndk_root is Some,
        serves(world, env.ndk_root->0, target, host, env),
    ensures
        resolution(target, host, env, world) matches ProgressView::Done(Ok(found)) && outcome(
            argv,
            env,
            host,
            world,
        ) matches StepView::Launch(launch) && {
            let root = env.ndk_root->0;
            &&& launch.variables == variables_of(target, found)
            &&& launch.variables.len() >= 4
            &&& launch.variables[0].name == archiver_variable(target)
            &&& root.is_prefix_of(launch.variables[0].value)
            &&& launch.variables[1].name == compiler_variable(target)
            &&& root.is_prefix_of(launch.variables[1].value)
            &&& launch.variables[3].name == linker_variable(target)
            &&& root.is_prefix_of(launch.variables[3].value)
        },
{
    law_resolution_succeeds(target, host, env, world);
    law_run_follows_resolution(argv, env, host, world, target);
    let end = resolution(target, host, env, world);
    let found = end->Done_0->Ok_0;
    assert(end == ProgressView::Done(Ok::<ToolchainView, FailureView>(found)));
    lemma_tool_variables(target, found);
    let launch = LaunchView {
        program: env.driver->0,
        arguments: forwarded_of(argv),
        variables: variables_of(target, found),
    };
    assert(followed(env.driver->0, forwarded_of(argv), target, end) == StepView::Launch(launch));
}

/// Setting variables leaves alone whatever is set under other names.
proof fn lemma_others_are_inherited(
    inherited: Map<Seq<u8>, Seq<u8>>,
    variables: Seq<VariableView>,
    name: Seq<u8>,
)
    requires
        forall|i: int| 0 <= i < variables.len() ==> native(#[trigger] variables[i].name) != name,
    ensures
        applied(inherited, variables).contains_key(name) == inherited.contains_key(name),
        applied(inherited, variables)[name] == inherited[name],
    decreases variables.len(),
{
    if variables.len() > 0 {
        let before = variables.drop_last();
        assert forall|i: int| 0 <= i < before.len() implies native(#[trigger] before[i].name)
            != name by {
            assert(before[i] == variables[i]);
        }
        lemma_others_are_inherited(inherited, before, name);
        assert(native(variables[variables.len() - 1].name) != name);
    }
}

/// The build driver inherits the environment but for the variables of the
/// launch: whatever is set under another name than theirs is set for the
/// build driver as it was, and nothing else is set under such a name.
pub proof fn law_environment_is_inherited(
    launch: LaunchView,
    inherited: Map<Seq<u8>, Seq<u8>>,
    name: Seq<u8>,
)
    requires
        forall|i: int|
            0 <= i < launch.variables.len() ==> native(#[trigger] launch.variables[i].name)
                != name,
    ensures
        launch.environment(inherited).contains_key(name) == inherited.contains_key(name),
        launch.environment(inherited)[name] == inherited[name],
{
    lemma_others_are_inherited(inherited, launch.variables, name);
}

/// Where no two variables of a list have the same name, each is set to its
/// own value.
proof fn lemma_set_last_wins(
    inherited: Map<Seq<u8>, Seq<u8>>,
    variables: Seq<VariableView>,
    i: int,
)
    requires
        0 <= i < variables.len(),
        forall|a: int, b: int|
            0 <= a < b < variables.len() ==> native(variables[a].name) != native(
                variables[b].name,
            ),
    ensures
        applied(inherited, variables).contains_key(native(variables[i].name)),
        applied(inherited, variables)[native(variables[i].name)] == variables[i].value,
    decreases variables.len(),
{
    let before = variables.drop_last();
    if i < variables.len() - 1 {
        assert forall|a: int, b: int| 0 <= a < b < before.len() implies native(before[a].name)
            != native(before[b].name) by {
            assert(before[a] == variables[a]);
            assert(before[b] == variables[b]);
        }
        lemma_set_last_wins(inherited, before, i);
        assert(before[i] == variables[i]);
        assert(native(variables[i].name) != native(variables[variables.len() - 1].name));
    }
}

/// Each variable of a toolchain is set for the build driver to the value that
/// the toolchain gives it, whatever the inherited environment holds.
pub proof fn law_variables_are_set(
    target: Seq<char>,
    found: ToolchainView,
    inherited: Map<Seq<u8>, Seq<u8>>,
    i: int,
)
    requires
        0 <= i < variables_of(target, found).len(),
    ensures
        applied(inherited, variables_of(target, found)).contains_key(
            native(variables_of(target, found)[i].name),
        ),
        applied(inherited, variables_of(target, found))[native(
            variables_of(target, found)[i].name,
        )] == variables_of(target, found)[i].value,
{
    let list = variables_of(target, found);
    law_variable_names_differ(target, found);
    assert forall|a: int, b: int| 0 <= a < b < list.len() implies native(list[a].name) != native(
        list[b].name,
    ) by {
        encode_utf8_decode_utf8(list[a].name);
        encode_utf8_decode_utf8(list[b].name);
    }
    lemma_set_last_wins(inherited, list, i);
}

} // verus!
