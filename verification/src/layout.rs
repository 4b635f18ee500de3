//! Where an NDK keeps what a build needs: the prebuilt toolchain for the
//! host, the sysroot, the directory with one entry per API level, the tools,
//! and the directory of the compiler's runtime builtins.

use vstd::prelude::*;
use vstd::string::*;
use crate::api::{append_level, decimal};
use crate::host::HostFamily;
use crate::text::{append_bytes, append_text, copy_bytes, native};
use crate::triple::{tool_prefix, tool_prefix_of};

verus! {

/// The directory of the prebuilt toolchain for the host, below the NDK's root.
pub open spec fn toolchain_dir_of(host: HostFamily, root: Seq<u8>) -> Seq<u8> {
    host.joined(
        host.joined(
            host.joined(host.joined(root, native("toolchains"@)), native("llvm"@)),
            native("prebuilt"@),
        ),
        native(host.os_name()) + native("-x86_64"@),
    )
}

/// The sysroot of a toolchain.
pub open spec fn sysroot_of(host: HostFamily, toolchain: Seq<u8>) -> Seq<u8> {
    host.joined(toolchain, native("sysroot"@))
}

/// The directory of a toolchain that holds one entry per API level for a
/// target.
pub open spec fn api_dir_of(host: HostFamily, toolchain: Seq<u8>, target: Seq<char>) -> Seq<u8> {
    host.joined(
        host.joined(host.joined(sysroot_of(host, toolchain), native("usr"@)), native("lib"@)),
        native(target),
    )
}

/// The directory of a toolchain that holds its tools.
pub open spec fn bin_dir_of(host: HostFamily, toolchain: Seq<u8>) -> Seq<u8> {
    host.joined(toolchain, native("bin"@))
}

/// The archiver of a toolchain.
pub open spec fn archiver_of(host: HostFamily, toolchain: Seq<u8>) -> Seq<u8> {
    host.joined(bin_dir_of(host, toolchain), native("llvm-ar"@) + native(host.exe_suffix()))
}

/// The name of the compiler driver for a target at an API level.
pub open spec fn compiler_name_of(host: HostFamily, target: Seq<char>, api: u8) -> Seq<u8> {
    native(tool_prefix_of(target)) + decimal(api as nat) + native("-clang"@) + native(
        host.script_suffix(),
    )
}

/// The compiler driver of a toolchain for a target at an API level.
pub open spec fn compiler_of(
    host: HostFamily,
    toolchain: Seq<u8>,
    target: Seq<char>,
    api: u8,
) -> Seq<u8> {
    host.joined(bin_dir_of(host, toolchain), compiler_name_of(host, target, api))
}

/// The directory of a toolchain that holds one entry per version of the
/// compiler.
pub open spec fn clang_dir_of(host: HostFamily, toolchain: Seq<u8>) -> Seq<u8> {
    host.joined(host.joined(toolchain, native("lib"@)), native("clang"@))
}

/// The directory that holds the runtime builtins of one version of the
/// compiler.
pub open spec fn runtime_dir_of(host: HostFamily, toolchain: Seq<u8>, version: Seq<u8>) -> Seq<
    u8,
> {
    host.joined(
        host.joined(host.joined(clang_dir_of(host, toolchain), version), native("lib"@)),
        native("linux"@),
    )
}

/// The argument that tells a compiler where the sysroot is.
pub open spec fn sysroot_flag_of(sysroot: Seq<u8>) -> Seq<u8> {
    native("--sysroot="@) + sysroot
}

/// The directory of the prebuilt toolchain for the host.
pub fn toolchain_dir(host: HostFamily, root: &Vec<u8>) -> (dir: Vec<u8>)
    ensures
        dir@ == toolchain_dir_of(host, root@),
{
    let mut dir = copy_bytes(root);
    host.push_name(&mut dir, "toolchains");
    host.push_name(&mut dir, "llvm");
    host.push_name(&mut dir, "prebuilt");
    let mut name: Vec<u8> = Vec::new();
    append_text(&mut name, host.ndk_os());
    append_text(&mut name, "-x86_64");
    host.push_native(&mut dir, &name);
    dir
}

/// The sysroot of a toolchain.
pub fn sysroot(host: HostFamily, toolchain: &Vec<u8>) -> (dir: Vec<u8>)
    ensures
        dir@ == sysroot_of(host, toolchain@),
{
    let mut dir = copy_bytes(toolchain);
    host.push_name(&mut dir, "sysroot");
    dir
}

/// The directory that holds one entry per API level for a target.
pub fn api_dir(host: HostFamily, toolchain: &Vec<u8>, target: &str) -> (dir: Vec<u8>)
    ensures
        dir@ == api_dir_of(host, toolchain@, target@),
{
    let mut dir = sysroot(host, toolchain);
    host.push_name(&mut dir, "usr");
    host.push_name(&mut dir, "lib");
    host.push_name(&mut dir, target);
    dir
}

/// The archiver of a toolchain.
pub fn archiver(host: HostFamily, toolchain: &Vec<u8>) -> (path: Vec<u8>)
    ensures
        path@ == archiver_of(host, toolchain@),
{
    let mut path = copy_bytes(toolchain);
    host.push_name(&mut path, "bin");
    let mut name: Vec<u8> = Vec::new();
    append_text(&mut name, "llvm-ar");
    append_text(&mut name, host.executable_suffix());
    host.push_native(&mut path, &name);
    path
}

/// The compiler driver of a toolchain for a target at an API level.
pub fn compiler(host: HostFamily, toolchain: &Vec<u8>, target: &str, api: u8) -> (path: Vec<u8>)
    ensures
        path@ == compiler_of(host, toolchain@, target@, api),
{
    let mut path = copy_bytes(toolchain);
    host.push_name(&mut path, "bin");
    let mut name: Vec<u8> = Vec::new();
    append_text(&mut name, tool_prefix(target));
    append_level(&mut name, api);
    append_text(&mut name, "-clang");
    append_text(&mut name, host.driver_suffix());
    host.push_native(&mut path, &name);
    path
}

/// The directory that holds one entry per version of the compiler.
pub fn clang_dir(host: HostFamily, toolchain: &Vec<u8>) -> (dir: Vec<u8>)
    ensures
        dir@ == clang_dir_of(host, toolchain@),
{
    let mut dir = copy_bytes(toolchain);
    host.push_name(&mut dir, "lib");
    host.push_name(&mut dir, "clang");
    dir
}

/// The directory that holds the runtime builtins of one version of the
/// compiler.
pub fn runtime_dir(host: HostFamily, toolchain: &Vec<u8>, version: &Vec<u8>) -> (dir: Vec<u8>)
    ensures
        dir@ == runtime_dir_of(host, toolchain@, version@),
{
    let mut dir = clang_dir(host, toolchain);
    host.push_native(&mut dir, version);
    host.push_name(&mut dir, "lib");
    host.push_name(&mut dir, "linux");
    dir
}

/// The argument that tells a compiler where the sysroot is.
pub fn sysroot_flag(sysroot: &Vec<u8>) -> (flag: Vec<u8>)
    ensures
        flag@ == sysroot_flag_of(sysroot@),
{
    let mut flag: Vec<u8> = Vec::new();
    append_text(&mut flag, "--sysroot=");
    append_bytes(&mut flag, sysroot);
    flag
}

} // verus!
