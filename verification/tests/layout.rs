use cargo_android::host::{HostFamily, BACKSLASH, SLASH};
use cargo_android::layout::{
    api_dir, archiver, clang_dir, compiler, runtime_dir, sysroot, sysroot_flag, toolchain_dir,
};

fn joined(host: HostFamily, base: &[u8], name: &str) -> Vec<u8> {
    let mut path = base.to_vec();
    host.push_name(&mut path, name);
    path
}

#[test]
fn hosts_have_their_own_conventions() {
    assert_eq!(HostFamily::Linux.ndk_os(), "linux");
    assert_eq!(HostFamily::MacOs.ndk_os(), "darwin");
    assert_eq!(HostFamily::Windows.ndk_os(), "windows");
    assert_eq!(HostFamily::Linux.executable_suffix(), "");
    assert_eq!(HostFamily::MacOs.executable_suffix(), "");
    assert_eq!(HostFamily::Windows.executable_suffix(), ".exe");
    assert_eq!(HostFamily::Linux.driver_suffix(), "");
    assert_eq!(HostFamily::MacOs.driver_suffix(), "");
    assert_eq!(HostFamily::Windows.driver_suffix(), ".cmd");
    assert_eq!(SLASH, b'/');
    assert_eq!(BACKSLASH, b'\\');
}

#[test]
fn components_are_separated_once() {
    assert_eq!(joined(HostFamily::Linux, b"/opt/ndk", "bin"), b"/opt/ndk/bin".to_vec());
    assert_eq!(joined(HostFamily::Linux, b"/opt/ndk/", "bin"), b"/opt/ndk/bin".to_vec());
    assert_eq!(joined(HostFamily::Linux, b"/", "bin"), b"/bin".to_vec());
    assert_eq!(joined(HostFamily::Linux, b"", "bin"), b"bin".to_vec());
    assert_eq!(joined(HostFamily::MacOs, b"ndk", "bin"), b"ndk/bin".to_vec());
}

#[test]
fn backslash_separates_on_windows_only() {
    assert_eq!(joined(HostFamily::Windows, b"C:\\ndk", "bin"), b"C:\\ndk\\bin".to_vec());
    assert_eq!(joined(HostFamily::Windows, b"C:\\ndk\\", "bin"), b"C:\\ndk\\bin".to_vec());
    assert_eq!(joined(HostFamily::Windows, b"C:/ndk/", "bin"), b"C:/ndk/bin".to_vec());
    assert_eq!(joined(HostFamily::Linux, b"/ndk\\", "bin"), b"/ndk\\/bin".to_vec());
}

#[test]
fn joining_agrees_with_the_standard_paths_of_this_host() {
    let host = if std::path::MAIN_SEPARATOR == '/' { HostFamily::Linux } else { HostFamily::Windows };
    for base in ["/opt/ndk", "/opt/ndk/", "ndk", "", "/", "a/b//"] {
        for name in ["toolchains", "linux-x86_64", "llvm-ar", "aarch64-linux-android34-clang"] {
            let mut expected = std::path::PathBuf::from(base);
            expected.push(name);
            assert_eq!(joined(host, base.as_bytes(), name), expected.to_str().unwrap().as_bytes());
        }
    }
}

#[test]
fn native_components_are_pushed_as_they_are() {
    let mut path = b"/ndk".to_vec();
    HostFamily::Linux.push_native(&mut path, &b"v\xff".to_vec());
    assert_eq!(path, b"/ndk/v\xff".to_vec());
    let mut path = b"/ndk".to_vec();
    HostFamily::Linux.open_component(&mut path);
    assert_eq!(path, b"/ndk/".to_vec());
    HostFamily::Linux.open_component(&mut path);
    assert_eq!(path, b"/ndk/".to_vec());
}

#[test]
fn toolchain_directory_is_named_by_the_host() {
    assert_eq!(
        toolchain_dir(HostFamily::Linux, &b"/opt/ndk".to_vec()),
        b"/opt/ndk/toolchains/llvm/prebuilt/linux-x86_64".to_vec()
    );
    assert_eq!(
        toolchain_dir(HostFamily::MacOs, &b"/opt/ndk/".to_vec()),
        b"/opt/ndk/toolchains/llvm/prebuilt/darwin-x86_64".to_vec()
    );
    assert_eq!(
        toolchain_dir(HostFamily::Windows, &b"C:\\ndk".to_vec()),
        b"C:\\ndk\\toolchains\\llvm\\prebuilt\\windows-x86_64".to_vec()
    );
}

#[test]
fn toolchain_directory_keeps_a_root_that_is_not_text() {
    assert_eq!(
        toolchain_dir(HostFamily::Linux, &b"/opt/\xff\xfe".to_vec()),
        b"/opt/\xff\xfe/toolchains/llvm/prebuilt/linux-x86_64".to_vec()
    );
}

#[test]
fn directories_below_the_toolchain() {
    let toolchain = b"/t".to_vec();
    assert_eq!(sysroot(HostFamily::Linux, &toolchain), b"/t/sysroot".to_vec());
    assert_eq!(
        api_dir(HostFamily::Linux, &toolchain, "aarch64-linux-android"),
        b"/t/sysroot/usr/lib/aarch64-linux-android".to_vec()
    );
    assert_eq!(
        api_dir(HostFamily::Linux, &toolchain, "armv7-linux-androideabi"),
        b"/t/sysroot/usr/lib/armv7-linux-androideabi".to_vec()
    );
    assert_eq!(clang_dir(HostFamily::Linux, &toolchain), b"/t/lib/clang".to_vec());
    assert_eq!(
        runtime_dir(HostFamily::Linux, &toolchain, &b"17.0.2".to_vec()),
        b"/t/lib/clang/17.0.2/lib/linux".to_vec()
    );
    assert_eq!(
        runtime_dir(HostFamily::Windows, &b"C:\\t".to_vec(), &b"17".to_vec()),
        b"C:\\t\\lib\\clang\\17\\lib\\linux".to_vec()
    );
}

#[test]
fn tools_below_the_toolchain() {
    let toolchain = b"/t".to_vec();
    assert_eq!(archiver(HostFamily::Linux, &toolchain), b"/t/bin/llvm-ar".to_vec());
    assert_eq!(archiver(HostFamily::MacOs, &toolchain), b"/t/bin/llvm-ar".to_vec());
    assert_eq!(
        archiver(HostFamily::Windows, &b"C:\\t".to_vec()),
        b"C:\\t\\bin\\llvm-ar.exe".to_vec()
    );
    assert_eq!(
        compiler(HostFamily::Linux, &toolchain, "aarch64-linux-android", 34),
        b"/t/bin/aarch64-linux-android34-clang".to_vec()
    );
    assert_eq!(
        compiler(HostFamily::Windows, &b"C:\\t".to_vec(), "x86_64-linux-android", 21),
        b"C:\\t\\bin\\x86_64-linux-android21-clang.cmd".to_vec()
    );
    assert_eq!(
        compiler(HostFamily::Linux, &toolchain, "i686-linux-android", 0),
        b"/t/bin/i686-linux-android0-clang".to_vec()
    );
    assert_eq!(
        compiler(HostFamily::Linux, &toolchain, "i686-linux-android", 255),
        b"/t/bin/i686-linux-android255-clang".to_vec()
    );
}

#[test]
fn arm_aliases_use_the_ndk_name_in_the_compiler_path() {
    let toolchain = b"/t".to_vec();
    assert_eq!(
        compiler(HostFamily::Linux, &toolchain, "armv7-linux-androideabi", 21),
        b"/t/bin/armv7a-linux-androideabi21-clang".to_vec()
    );
    assert_eq!(
        compiler(HostFamily::Linux, &toolchain, "thumbv7neon-linux-androideabi", 21),
        b"/t/bin/armv7a-linux-androideabi21-clang".to_vec()
    );
}

#[test]
fn sysroot_flag_names_the_sysroot() {
    assert_eq!(sysroot_flag(&b"/t/sysroot".to_vec()), b"--sysroot=/t/sysroot".to_vec());
    assert_eq!(sysroot_flag(&b"\xff".to_vec()), b"--sysroot=\xff".to_vec());
    assert_eq!(sysroot_flag(&b"".to_vec()), b"--sysroot=".to_vec());
}
