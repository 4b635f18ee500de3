use cargo_android::flags::{
    is_whitespace, join_encoded, merge_flags, split_plain, split_text, trim, BUILTINS_LIBRARY,
    UNIT_SEPARATOR,
};

fn strings(items: &[&str]) -> Vec<String> {
    items.iter().map(|item| item.to_string()).collect()
}

#[test]
fn encoded_values_are_cut_at_unit_separators() {
    assert_eq!(UNIT_SEPARATOR, '\x1f');
    assert_eq!(split_text("-C\x1fopt-level=3", '\x1f'), strings(&["-C", "opt-level=3"]));
    assert_eq!(split_text("one", '\x1f'), strings(&["one"]));
    assert_eq!(split_text("a b\x1fc", '\x1f'), strings(&["a b", "c"]));
}

#[test]
fn empty_pieces_are_kept_when_cutting() {
    assert_eq!(split_text("", '\x1f'), strings(&[""]));
    assert_eq!(split_text("\x1f", '\x1f'), strings(&["", ""]));
    assert_eq!(split_text("a\x1f\x1fb\x1f", '\x1f'), strings(&["a", "", "b", ""]));
    assert_eq!(split_text("\x1fa", '\x1f'), strings(&["", "a"]));
}

#[test]
fn cutting_agrees_with_the_standard_function() {
    for sample in ["", " ", "a b", " a  b ", "a\u{e9} b\u{4e2d}c  ", "   "] {
        let expected: Vec<String> = sample.split(' ').map(str::to_string).collect();
        assert_eq!(split_text(sample, ' '), expected);
    }
}

#[test]
fn white_space_is_what_unicode_says() {
    for c in ['\t', '\n', '\x0b', '\x0c', '\r', ' ', '\u{85}', '\u{a0}', '\u{1680}', '\u{2000}'] {
        assert!(is_whitespace(c));
    }
    for c in ['\u{200a}', '\u{2028}', '\u{2029}', '\u{202f}', '\u{205f}', '\u{3000}'] {
        assert!(is_whitespace(c));
    }
    for c in ['a', '-', '\0', '\x08', '\x0e', '\x1f', '\u{200b}', '\u{feff}', '\u{180e}'] {
        assert!(!is_whitespace(c));
    }
}

#[test]
fn white_space_agrees_with_the_standard_function() {
    for code in 0..=0x10ffffu32 {
        if let Some(c) = char::from_u32(code) {
            assert_eq!(is_whitespace(c), c.is_whitespace());
        }
    }
}

#[test]
fn trimming_removes_white_space_at_both_ends_only() {
    assert_eq!(trim("  -C  opt  "), "-C  opt");
    assert_eq!(trim("\t-g\n"), "-g");
    assert_eq!(trim("\u{3000}x\u{a0}"), "x");
    assert_eq!(trim("x"), "x");
    assert_eq!(trim(""), "");
    assert_eq!(trim(" \t\r\n"), "");
}

#[test]
fn plain_values_are_cut_at_spaces_and_trimmed() {
    assert_eq!(split_plain("-C opt-level=3"), strings(&["-C", "opt-level=3"]));
    assert_eq!(split_plain("  -g   -O  "), strings(&["-g", "-O"]));
    assert_eq!(split_plain("\t-g \n-O\r"), strings(&["-g", "-O"]));
    assert_eq!(split_plain("-C\topt"), strings(&["-C\topt"]));
}

#[test]
fn plain_values_without_flags_give_none() {
    assert_eq!(split_plain(""), strings(&[]));
    assert_eq!(split_plain("   "), strings(&[]));
    assert_eq!(split_plain(" \t \n "), strings(&[]));
}

#[test]
fn flags_are_joined_with_unit_separators() {
    assert_eq!(join_encoded(&strings(&[])), "");
    assert_eq!(join_encoded(&strings(&["-g"])), "-g");
    assert_eq!(join_encoded(&strings(&["-C", "opt-level=3"])), "-C\x1fopt-level=3");
    assert_eq!(join_encoded(&strings(&["", ""])), "\x1f");
    assert_eq!(join_encoded(&strings(&["a", "", "b"])), "a\x1f\x1fb");
}

#[test]
fn joining_restores_what_was_cut() {
    for sample in ["", "\x1f", "a", "a\x1fb", "\x1fa\x1f\x1f", "-L\x1f/x y\x1f-g"] {
        assert_eq!(join_encoded(&split_text(sample, '\x1f')), sample);
    }
}

#[test]
fn builtins_flags_are_appended_to_encoded_flags() {
    assert_eq!(BUILTINS_LIBRARY, "static=clang_rt.builtins-x86_64-android");
    let merged = merge_flags(Some("-C\x1fopt-level=3"), None, "/ndk/lib/clang/17/lib/linux");
    assert_eq!(
        merged,
        "-C\x1fopt-level=3\x1f-L\x1f/ndk/lib/clang/17/lib/linux\x1f-l\x1fstatic=clang_rt.builtins-x86_64-android"
    );
}

#[test]
fn encoded_flags_win_over_plain_flags() {
    let merged = merge_flags(Some("-g"), Some("-O -C debuginfo=2"), "/rt");
    assert_eq!(merged, "-g\x1f-L\x1f/rt\x1f-l\x1fstatic=clang_rt.builtins-x86_64-android");
}

#[test]
fn encoded_flags_keep_spaces_and_empty_pieces() {
    let merged = merge_flags(Some("--cfg\x1ffeature=\"a b\"\x1f"), None, "/rt");
    assert_eq!(
        merged,
        "--cfg\x1ffeature=\"a b\"\x1f\x1f-L\x1f/rt\x1f-l\x1fstatic=clang_rt.builtins-x86_64-android"
    );
    let merged = merge_flags(Some(""), Some("-g"), "/rt");
    assert_eq!(merged, "\x1f-L\x1f/rt\x1f-l\x1fstatic=clang_rt.builtins-x86_64-android");
}

#[test]
fn plain_flags_are_recoded() {
    let merged = merge_flags(None, Some("  -C opt-level=3   -g "), "/rt");
    assert_eq!(
        merged,
        "-C\x1fopt-level=3\x1f-g\x1f-L\x1f/rt\x1f-l\x1fstatic=clang_rt.builtins-x86_64-android"
    );
    let merged = merge_flags(None, Some("   "), "/rt");
    assert_eq!(merged, "-L\x1f/rt\x1f-l\x1fstatic=clang_rt.builtins-x86_64-android");
}

#[test]
fn without_flags_only_the_builtins_flags_are_set() {
    let merged = merge_flags(None, None, "/ndk dir/rt");
    assert_eq!(merged, "-L\x1f/ndk dir/rt\x1f-l\x1fstatic=clang_rt.builtins-x86_64-android");
}
