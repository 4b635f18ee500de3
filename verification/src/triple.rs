//! Target triples: which of them are Android targets, how they name their
//! tools and how they are written inside the names of variables.

use vstd::prelude::*;
use vstd::string::*;
use crate::text::{chars_of, contains, contains_text, push_char, same_text};

verus! {

/// What a triple holds when it names an Android target.
pub const ANDROID_MARKER: &'static str = "android";

/// The one target whose runtime builtins have to be linked in by hand.
pub const X86_64_ANDROID: &'static str = "x86_64-linux-android";

/// Whether a triple names an Android target: it holds the marker somewhere.
pub open spec fn is_android_triple(target: Seq<char>) -> bool {
    contains_text(target, ANDROID_MARKER@)
}

/// The name under which the NDK keeps the tools of a target. The two 32-bit
/// ARM triples share the NDK's own name for that architecture; every other
/// triple stands for itself.
pub open spec fn tool_prefix_of(target: Seq<char>) -> Seq<char> {
    if target == "armv7-linux-androideabi"@ || target == "thumbv7neon-linux-androideabi"@ {
        "armv7a-linux-androideabi"@
    } else {
        target
    }
}

/// A character as it stands in the name of a variable: lower-case ASCII
/// letters in upper case, a hyphen as an underscore, anything else unchanged.
pub open spec fn variable_char(c: char) -> char {
    if 'a' <= c <= 'z' {
        ((c as u8) - 32) as u8 as char
    } else if c == '-' {
        '_'
    } else {
        c
    }
}

/// A triple as it stands in the name of a variable that is keyed by the
/// upper-case form.
pub open spec fn variable_form(target: Seq<char>) -> Seq<char> {
    target.map_values(|c: char| variable_char(c))
}

/// Whether the runtime builtins have to be linked in by hand for a target.
pub open spec fn needs_builtins(target: Seq<char>) -> bool {
    target == X86_64_ANDROID@
}

/// Whether a triple names an Android target.
pub fn is_android(target: &str) -> (android: bool)
    ensures
        android == is_android_triple(target@),
{
    contains(target, ANDROID_MARKER)
}

/// The name under which the NDK keeps the tools of a target.
pub fn tool_prefix<'a>(target: &'a str) -> (prefix: &'a str)
    ensures
        prefix@ == tool_prefix_of(target@),
{
    if same_text(target, "armv7-linux-androideabi") || same_text(
        target,
        "thumbv7neon-linux-androideabi",
    ) {
        "armv7a-linux-androideabi"
    } else {
        target
    }
}

/// Writes a triple as it stands in the name of a variable.
pub fn variable_name(target: &str) -> (name: String)
    ensures
        name@ == variable_form(target@),
{
    let chars = chars_of(target);
    let mut name = String::new();
    let mut i: usize = 0;
    while i < chars.len()
        invariant
            i <= chars.len(),
            chars@ == target@,
            name@ == variable_form(target@).take(i as int),
        decreases chars.len() - i,
    {
        let c = chars[i];
        let mapped = if 'a' <= c && c <= 'z' {
            ((c as u8) - 32) as char
        } else if c == '-' {
            '_'
        } else {
            c
        };
        push_char(&mut name, mapped);
        assert(variable_form(target@).take(i + 1) == variable_form(target@).take(i as int).push(
            variable_char(target@[i as int]),
        ));
        i += 1;
    }
    assert(variable_form(target@).take(i as int) == variable_form(target@));
    name
}

/// Whether the runtime builtins have to be linked in by hand for a target.
pub fn wants_builtins(target: &str) -> (wanted: bool)
    ensures
        wanted == needs_builtins(target@),
{
    same_text(target, X86_64_ANDROID)
}

} // verus!
