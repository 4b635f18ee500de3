use cargo_android::triple::{
    is_android, tool_prefix, variable_name, wants_builtins, ANDROID_MARKER, X86_64_ANDROID,
};

#[test]
fn android_targets_hold_the_marker() {
    assert_eq!(ANDROID_MARKER, "android");
    assert!(is_android("aarch64-linux-android"));
    assert!(is_android("armv7-linux-androideabi"));
    assert!(is_android("x86_64-linux-android"));
    assert!(is_android("android"));
    assert!(is_android("androidandroid"));
    assert!(is_android("xandroid-y"));
}

#[test]
fn other_targets_do_not() {
    assert!(!is_android(""));
    assert!(!is_android("x86_64-unknown-linux-gnu"));
    assert!(!is_android("aarch64-apple-darwin"));
    assert!(!is_android("androi"));
    assert!(!is_android("Android"));
    assert!(!is_android("andro-id"));
    assert!(!is_android("ndroid"));
}

#[test]
fn arm_aliases_share_the_tool_prefix() {
    assert_eq!(tool_prefix("armv7-linux-androideabi"), "armv7a-linux-androideabi");
    assert_eq!(tool_prefix("thumbv7neon-linux-androideabi"), "armv7a-linux-androideabi");
}

#[test]
fn other_targets_are_their_own_tool_prefix() {
    assert_eq!(tool_prefix("aarch64-linux-android"), "aarch64-linux-android");
    assert_eq!(tool_prefix("x86_64-linux-android"), "x86_64-linux-android");
    assert_eq!(tool_prefix("i686-linux-android"), "i686-linux-android");
    assert_eq!(tool_prefix("armv7a-linux-androideabi"), "armv7a-linux-androideabi");
    assert_eq!(tool_prefix("armv7-linux-androideabi "), "armv7-linux-androideabi ");
    assert_eq!(tool_prefix(""), "");
}

#[test]
fn variable_form_is_upper_case_with_underscores() {
    assert_eq!(variable_name("aarch64-linux-android"), "AARCH64_LINUX_ANDROID");
    assert_eq!(variable_name("armv7-linux-androideabi"), "ARMV7_LINUX_ANDROIDEABI");
    assert_eq!(variable_name("x86_64-linux-android"), "X86_64_LINUX_ANDROID");
    assert_eq!(variable_name(""), "");
    assert_eq!(variable_name("az-AZ_09.{`"), "AZ_AZ_09.{`");
}

#[test]
fn variable_form_leaves_other_characters_alone() {
    assert_eq!(variable_name("\u{e9}t\u{e9}-\u{df}"), "\u{e9}T\u{e9}_\u{df}");
    assert_eq!(variable_name("\u{4e2d}-a"), "\u{4e2d}_A");
}

#[test]
fn variable_form_agrees_with_the_standard_functions() {
    for sample in ["aarch64-linux-android", "a-b-c", "MiXeD-Case_1", "\u{fc}ber-z"] {
        assert_eq!(variable_name(sample), sample.to_ascii_uppercase().replace('-', "_"));
    }
}

#[test]
fn only_one_target_wants_the_builtins() {
    assert_eq!(X86_64_ANDROID, "x86_64-linux-android");
    assert!(wants_builtins("x86_64-linux-android"));
    assert!(!wants_builtins("aarch64-linux-android"));
    assert!(!wants_builtins("i686-linux-android"));
    assert!(!wants_builtins("x86_64-linux-androideabi"));
    assert!(!wants_builtins("x86_64-linux-androi"));
    assert!(!wants_builtins(""));
}
