use cargo_android::environment::Environment;
use cargo_android::failure::Failure;
use cargo_android::host::HostFamily;
use cargo_android::probe::{Query, Reply};
use cargo_android::resolver::Toolchain;
use cargo_android::session::{begin, Launch, Step};
use cargo_android::variables::{variables, Variable, FLAGS_VARIABLE};

/// Answers questions from the directories of a small NDK for Linux hosts and
/// counts them.
struct Disk {
    levels_of: String,
    asked: usize,
}

impl Disk {
    fn serving(target: &str) -> Disk {
        Disk { levels_of: target.to_string(), asked: 0 }
    }

    fn reply(&mut self, query: &Query) -> Reply {
        self.asked += 1;
        let toolchain = b"/ndk/toolchains/llvm/prebuilt/linux-x86_64".to_vec();
        let mut levels = toolchain.clone();
        levels.extend_from_slice(b"/sysroot/usr/lib/");
        levels.extend_from_slice(self.levels_of.as_bytes());
        let mut clang = toolchain.clone();
        clang.extend_from_slice(b"/lib/clang");
        match query {
            Query::Exists { path } => Reply::Exists(*path == toolchain),
            Query::Names { dir } if *dir == levels => {
                Reply::Names(vec![Some(b"21".to_vec()), None, Some(b"35".to_vec()), Some(b"34".to_vec())])
            }
            Query::First { dir } if *dir == clang => Reply::First(Some(b"18".to_vec())),
            _ => Reply::Unreadable("Permission denied (os error 13)".to_string()),
        }
    }
}

/// Runs to the end and says whether the build driver would have been started.
fn run(argv: &[&[u8]], env: &Environment, disk: &mut Disk) -> Result<Launch, Failure> {
    let argv: Vec<Vec<u8>> = argv.iter().map(|a| a.to_vec()).collect();
    let mut step = begin(&argv, env, HostFamily::Linux);
    loop {
        match step {
            Step::Launch(launch) => return Ok(launch),
            Step::Fail(failure) => return Err(failure),
            Step::Ask(session, query) => {
                let reply = disk.reply(&query);
                step = session.answer(reply);
            }
        }
    }
}

fn full_env() -> Environment {
    Environment {
        driver: Some(b"/usr/bin/cargo".to_vec()),
        ndk_root: Some(b"/ndk".to_vec()),
        api_level: None,
        encoded_flags: None,
        plain_flags: None,
    }
}

fn variable(name: &str, value: &[u8]) -> Variable {
    Variable { name: name.to_string(), value: value.to_vec() }
}

fn natives(items: &[&[u8]]) -> Vec<Vec<u8>> {
    items.iter().map(|item| item.to_vec()).collect()
}

#[test]
fn android_build_gets_its_four_variables() {
    let mut disk = Disk::serving("aarch64-linux-android");
    let launch = run(
        &[b"cargo-android", b"android", b"build", b"--target", b"aarch64-linux-android"],
        &full_env(),
        &mut disk,
    )
    .unwrap();
    assert_eq!(launch.program, b"/usr/bin/cargo".to_vec());
    assert_eq!(launch.arguments, natives(&[b"build", b"--target", b"aarch64-linux-android"]));
    assert_eq!(
        launch.variables,
        vec![
            variable(
                "AR_aarch64-linux-android",
                b"/ndk/toolchains/llvm/prebuilt/linux-x86_64/bin/llvm-ar"
            ),
            variable(
                "CC_aarch64-linux-android",
                b"/ndk/toolchains/llvm/prebuilt/linux-x86_64/bin/aarch64-linux-android35-clang"
            ),
            variable(
                "BINDGEN_EXTRA_CLANG_ARGS_aarch64-linux-android",
                b"--sysroot=/ndk/toolchains/llvm/prebuilt/linux-x86_64/sysroot"
            ),
            variable(
                "CARGO_TARGET_AARCH64_LINUX_ANDROID_LINKER",
                b"/ndk/toolchains/llvm/prebuilt/linux-x86_64/bin/aarch64-linux-android35-clang"
            ),
        ]
    );
    assert_eq!(disk.asked, 2);
}

#[test]
fn tools_of_an_android_build_lie_below_the_root() {
    for target in ["aarch64-linux-android", "i686-linux-android", "riscv64-linux-android"] {
        let mut disk = Disk::serving(target);
        let flag = format!("--target={target}");
        let launch =
            run(&[b"w", b"android", b"build", flag.as_bytes()], &full_env(), &mut disk).unwrap();
        for index in [0, 1, 3] {
            assert!(launch.variables[index].value.starts_with(b"/ndk/"));
        }
    }
}

#[test]
fn arm_aliases_keep_their_own_name_in_the_variables() {
    for target in ["armv7-linux-androideabi", "thumbv7neon-linux-androideabi"] {
        let mut disk = Disk::serving(target);
        let launch = run(
            &[b"w", b"android", b"build", b"--target", target.as_bytes()],
            &full_env(),
            &mut disk,
        )
        .unwrap();
        let names: Vec<&str> = launch.variables.iter().map(|v| v.name.as_str()).collect();
        let upper = target.to_uppercase().replace('-', "_");
        assert_eq!(
            names,
            vec![
                format!("AR_{target}"),
                format!("CC_{target}"),
                format!("BINDGEN_EXTRA_CLANG_ARGS_{target}"),
                format!("CARGO_TARGET_{upper}_LINKER"),
            ]
        );
        assert_eq!(
            launch.variables[1].value,
            b"/ndk/toolchains/llvm/prebuilt/linux-x86_64/bin/armv7a-linux-androideabi35-clang"
                .to_vec()
        );
        assert_eq!(launch.variables[3].value, launch.variables[1].value);
    }
}

#[test]
fn x86_64_build_gets_the_flags_as_fifth_variable() {
    let mut disk = Disk::serving("x86_64-linux-android");
    let mut env = full_env();
    env.encoded_flags = Some(b"-C\x1ftarget-cpu=native".to_vec());
    let launch =
        run(&[b"w", b"android", b"test", b"--target=x86_64-linux-android"], &env, &mut disk)
            .unwrap();
    assert_eq!(launch.variables.len(), 5);
    assert_eq!(FLAGS_VARIABLE, "CARGO_ENCODED_RUSTFLAGS");
    assert_eq!(
        launch.variables[4],
        variable(
            "CARGO_ENCODED_RUSTFLAGS",
            b"-C\x1ftarget-cpu=native\x1f-L\x1f/ndk/toolchains/llvm/prebuilt/linux-x86_64/lib/clang/18/lib/linux\x1f-l\x1fstatic=clang_rt.builtins-x86_64-android"
        )
    );
    assert_eq!(disk.asked, 3);
}

#[test]
fn build_without_a_target_is_launched_as_it_is() {
    let mut disk = Disk::serving("aarch64-linux-android");
    let launch = run(&[b"w", b"android", b"build", b"--release"], &full_env(), &mut disk).unwrap();
    assert_eq!(
        launch,
        Launch {
            program: b"/usr/bin/cargo".to_vec(),
            arguments: natives(&[b"build", b"--release"]),
            variables: Vec::new(),
        }
    );
    assert_eq!(disk.asked, 0);
}

#[test]
fn build_for_another_platform_is_launched_as_it_is() {
    let mut disk = Disk::serving("aarch64-linux-android");
    let mut env = full_env();
    env.ndk_root = None;
    env.api_level = Some(b"banana".to_vec());
    let launch = run(
        &[b"w", b"android", b"build", b"--target", b"x86_64-unknown-linux-gnu", b"\xff"],
        &env,
        &mut disk,
    )
    .unwrap();
    assert_eq!(
        launch,
        Launch {
            program: b"/usr/bin/cargo".to_vec(),
            arguments: natives(&[b"build", b"--target", b"x86_64-unknown-linux-gnu", b"\xff"]),
            variables: Vec::new(),
        }
    );
    assert_eq!(disk.asked, 0);
}

#[test]
fn wrappers_own_arguments_are_not_read_for_a_target() {
    let mut disk = Disk::serving("aarch64-linux-android");
    let launch =
        run(&[b"--target", b"aarch64-linux-android", b"build"], &full_env(), &mut disk).unwrap();
    assert_eq!(launch.arguments, natives(&[b"build"]));
    assert!(launch.variables.is_empty());
    let launch = run(&[b"x", b"--target=aarch64-linux-android"], &full_env(), &mut disk).unwrap();
    assert!(launch.arguments.is_empty());
    assert!(launch.variables.is_empty());
}

#[test]
fn missing_root_launches_nothing() {
    let mut disk = Disk::serving("aarch64-linux-android");
    let mut env = full_env();
    env.ndk_root = None;
    assert_eq!(
        run(&[b"w", b"android", b"build", b"--target=aarch64-linux-android"], &env, &mut disk),
        Err(Failure::NdkRootNotSet)
    );
    assert_eq!(disk.asked, 0);
}

#[test]
fn missing_driver_launches_nothing() {
    let mut disk = Disk::serving("aarch64-linux-android");
    let mut env = full_env();
    env.driver = None;
    assert_eq!(
        run(&[b"w", b"android", b"build", b"--target=aarch64-linux-android"], &env, &mut disk),
        Err(Failure::DriverNotSet)
    );
    assert_eq!(run(&[b"w", b"android", b"build"], &env, &mut disk), Err(Failure::DriverNotSet));
    assert_eq!(run(&[], &env, &mut disk), Err(Failure::DriverNotSet));
    assert_eq!(disk.asked, 0);
}

#[test]
fn arguments_are_read_before_the_driver_is_looked_for() {
    let mut disk = Disk::serving("aarch64-linux-android");
    let mut env = full_env();
    env.driver = None;
    env.ndk_root = None;
    assert_eq!(
        run(&[b"w", b"android", b"--target", b"\xff"], &env, &mut disk),
        Err(Failure::ArgumentNotText { argument: b"\xff".to_vec() })
    );
    assert_eq!(
        run(&[b"w", b"android", b"--target=aarch64-linux-android"], &env, &mut disk),
        Err(Failure::DriverNotSet)
    );
}

#[test]
fn failure_of_the_resolution_launches_nothing() {
    let mut disk = Disk::serving("i686-linux-android");
    assert_eq!(
        run(&[b"w", b"android", b"build", b"--target=aarch64-linux-android"], &full_env(), &mut disk),
        Err(Failure::ApiLevelsUnreadable {
            dir: b"/ndk/toolchains/llvm/prebuilt/linux-x86_64/sysroot/usr/lib/aarch64-linux-android"
                .to_vec(),
            reason: "Permission denied (os error 13)".to_string(),
        })
    );
    let mut env = full_env();
    env.ndk_root = Some(b"/elsewhere".to_vec());
    assert_eq!(
        run(&[b"w", b"android", b"build", b"--target=aarch64-linux-android"], &env, &mut disk),
        Err(Failure::ToolchainNotFound {
            dir: b"/elsewhere/toolchains/llvm/prebuilt/linux-x86_64".to_vec()
        })
    );
}

#[test]
fn answer_of_the_wrong_kind_ends_the_run() {
    let argv = natives(&[b"w", b"android", b"--target=aarch64-linux-android"]);
    let Step::Ask(session, query) = begin(&argv, &full_env(), HostFamily::Linux) else {
        panic!("a question was expected");
    };
    assert_eq!(
        query,
        Query::Exists { path: b"/ndk/toolchains/llvm/prebuilt/linux-x86_64".to_vec() }
    );
    match session.answer(Reply::Unreadable("?".to_string())) {
        Step::Fail(failure) => assert_eq!(failure, Failure::UnexpectedReply),
        _ => panic!("a failure was expected"),
    }
}

#[test]
fn variables_are_listed_for_a_toolchain() {
    let toolchain = Toolchain {
        ndk_root: b"/n".to_vec(),
        toolchain_dir: b"/n/t".to_vec(),
        sysroot: b"/n/t/sysroot".to_vec(),
        api_level: 21,
        archiver: b"/n/t/bin/llvm-ar".to_vec(),
        compiler: b"/n/t/bin/x-clang".to_vec(),
        compiler_flags: Some("-g\x1f\u{e9}".to_string()),
    };
    assert_eq!(
        variables("x86_64-linux-android", &toolchain),
        vec![
            variable("AR_x86_64-linux-android", b"/n/t/bin/llvm-ar"),
            variable("CC_x86_64-linux-android", b"/n/t/bin/x-clang"),
            variable("BINDGEN_EXTRA_CLANG_ARGS_x86_64-linux-android", b"--sysroot=/n/t/sysroot"),
            variable("CARGO_TARGET_X86_64_LINUX_ANDROID_LINKER", b"/n/t/bin/x-clang"),
            variable("CARGO_ENCODED_RUSTFLAGS", b"-g\x1f\xc3\xa9"),
        ]
    );
}

#[test]
fn variable_names_never_collide() {
    for target in ["", "a", "ARGO_ENCODED_RUSTFLAGS", "_LINKER", "x86_64-linux-android"] {
        let toolchain = Toolchain {
            ndk_root: Vec::new(),
            toolchain_dir: Vec::new(),
            sysroot: Vec::new(),
            api_level: 0,
            archiver: Vec::new(),
            compiler: Vec::new(),
            compiler_flags: Some(String::new()),
        };
        let list = variables(target, &toolchain);
        assert_eq!(list.len(), 5);
        for i in 0..list.len() {
            for j in 0..i {
                assert_ne!(list[i].name, list[j].name);
            }
        }
    }
}
