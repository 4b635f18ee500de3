//! The global compiler flags: reading them in either of the two forms in
//! which the build driver takes them, and writing them back in the encoded
//! form with the flags that link the runtime builtins added at the end.

use vstd::prelude::*;
use vstd::string::*;
use crate::text::{chars_of, push_char, text_from};

verus! {

/// The character that separates the flags in the encoded form.
pub const UNIT_SEPARATOR: char = '\x1f';

/// The character that separates the flags in the plain form.
pub const SPACE: char = ' ';

/// The library that holds the runtime builtins, as the linker flag names it.
pub const BUILTINS_LIBRARY: &'static str = "static=clang_rt.builtins-x86_64-android";

/// Whether a character is white space, that is, has the Unicode property
/// `White_Space`.
pub open spec fn is_space(c: char) -> bool {
    let n = c as u32;
    ||| 0x09 <= n <= 0x0d
    ||| n == 0x20
    ||| n == 0x85
    ||| n == 0xa0
    ||| n == 0x1680
    ||| 0x2000 <= n <= 0x200a
    ||| n == 0x2028
    ||| n == 0x2029
    ||| n == 0x202f
    ||| n == 0x205f
    ||| n == 0x3000
}

/// The pieces into which the separator character `sep` cuts `s`. There is
/// always at least one piece, and a piece may be empty.
pub open spec fn split(s: Seq<char>, sep: char) -> Seq<Seq<char>>
    decreases s.len(),
{
    if s.len() == 0 {
        seq![Seq::empty()]
    } else {
        let before = split(s.drop_last(), sep);
        if s.last() == sep {
            before.push(Seq::empty())
        } else {
            before.drop_last().push(before.last().push(s.last()))
        }
    }
}

/// The pieces put together again with `sep` between each two of them.
pub open spec fn join(parts: Seq<Seq<char>>, sep: char) -> Seq<char>
    decreases parts.len(),
{
    if parts.len() == 0 {
        Seq::empty()
    } else if parts.len() == 1 {
        parts[0]
    } else {
        join(parts.drop_last(), sep).push(sep) + parts.last()
    }
}

/// `s` without the white space at its start.
pub open spec fn trimmed_start(s: Seq<char>) -> Seq<char>
    decreases s.len(),
{
    if s.len() > 0 && is_space(s[0]) {
        trimmed_start(s.skip(1))
    } else {
        s
    }
}

/// `s` without the white space at its end.
pub open spec fn trimmed_end(s: Seq<char>) -> Seq<char>
    decreases s.len(),
{
    if s.len() > 0 && is_space(s.last()) {
        trimmed_end(s.drop_last())
    } else {
        s
    }
}

/// `s` without the white space at its start and at its end.
pub open spec fn trimmed(s: Seq<char>) -> Seq<char> {
    trimmed_end(trimmed_start(s))
}

/// The flags that a value in the encoded form holds: its pieces between unit
/// separators, as they are.
pub open spec fn encoded_tokens(value: Seq<char>) -> Seq<Seq<char>> {
    split(value, UNIT_SEPARATOR)
}

/// The flags that a value in the plain form holds: its pieces between spaces,
/// each without the white space around it, the empty ones left out.
pub open spec fn plain_tokens(value: Seq<char>) -> Seq<Seq<char>> {
    split(value, SPACE).map_values(|t: Seq<char>| trimmed(t)).filter(
        |t: Seq<char>| t.len() > 0,
    )
}

/// The flags that are already set. The encoded form wins where both forms are
/// present; with neither there are none.
pub open spec fn present_tokens(encoded: Option<Seq<char>>, plain: Option<Seq<char>>) -> Seq<
    Seq<char>,
> {
    match (encoded, plain) {
        (Some(e), _) => encoded_tokens(e),
        (None, Some(p)) => plain_tokens(p),
        (None, None) => Seq::empty(),
    }
}

/// The flags that make the linker find and use the runtime builtins kept in
/// `runtime_dir`.
pub open spec fn builtins_tokens(runtime_dir: Seq<char>) -> Seq<Seq<char>> {
    seq!["-L"@, runtime_dir, "-l"@, BUILTINS_LIBRARY@]
}

/// The value of the global compiler flags for the build: what is already set,
/// then the flags for the runtime builtins, in the encoded form.
pub open spec fn merged_flags(
    encoded: Option<Seq<char>>,
    plain: Option<Seq<char>>,
    runtime_dir: Seq<char>,
) -> Seq<char> {
    join(present_tokens(encoded, plain) + builtins_tokens(runtime_dir), UNIT_SEPARATOR)
}

/// The views of a list of strings.
pub open spec fn texts(list: Seq<String>) -> Seq<Seq<char>> {
    list.map_values(|s: String| s@)
}

/// Whether a character is white space.
pub fn is_whitespace(c: char) -> (space: bool)
    ensures
        space == is_space(c),
{
    let n: u32 = c as u32;
    (0x09 <= n && n <= 0x0d) || n == 0x20 || n == 0x85 || n == 0xa0 || n == 0x1680 || (0x2000 <= n
        && n <= 0x200a) || n == 0x2028 || n == 0x2029 || n == 0x202f || n == 0x205f || n == 0x3000
}

/// Cuts a value into its pieces at every occurrence of `sep`.
pub fn split_text(value: &str, sep: char) -> (parts: Vec<String>)
    ensures
        texts(parts@) == split(value@, sep),
{
    let chars = chars_of(value);
    let mut parts: Vec<String> = Vec::new();
    let mut current = String::new();
    let mut i: usize = 0;
    while i < chars.len()
        invariant
            i <= chars.len(),
            chars@ == value@,
            texts(parts@).push(current@) == split(value@.take(i as int), sep),
        decreases chars.len() - i,
    {
        let c = chars[i];
        proof {
            let upto = value@.take(i + 1);
            assert(upto.drop_last() == value@.take(i as int));
            assert(upto.last() == c);
            let before = texts(parts@).push(current@);
            assert(before.drop_last() == texts(parts@));
            assert(before.last() == current@);
        }
        if c == sep {
            let ghost shown = texts(parts@);
            parts.push(current);
            assert(texts(parts@) == shown.push(current@));
            current = String::new();
        } else {
            push_char(&mut current, c);
        }
        i += 1;
    }
    assert(value@.take(i as int) == value@);
    let ghost shown = texts(parts@);
    parts.push(current);
    assert(texts(parts@) == shown.push(current@));
    parts
}

/// A value without the white space at its start and at its end.
pub fn trim(value: &str) -> (result: String)
    ensures
        result@ == trimmed(value@),
{
    let chars = chars_of(value);
    let mut start: usize = 0;
    assert(value@.skip(0) == value@);
    while start < chars.len() && is_whitespace(chars[start])
        invariant
            start <= chars.len(),
            chars@ == value@,
            trimmed_start(value@) == trimmed_start(value@.skip(start as int)),
        decreases chars.len() - start,
    {
        assert(value@.skip(start as int).skip(1) == value@.skip(start + 1));
        start += 1;
    }
    assert(trimmed_start(value@) == value@.skip(start as int));
    let mut end: usize = chars.len();
    assert(value@.skip(start as int) == value@.subrange(start as int, end as int));
    while end > start && is_whitespace(chars[end - 1])
        invariant
            start <= end <= chars.len(),
            chars@ == value@,
            trimmed(value@) == trimmed_end(value@.subrange(start as int, end as int)),
        decreases end,
    {
        assert(value@.subrange(start as int, end as int).drop_last() == value@.subrange(
            start as int,
            end - 1,
        ));
        end -= 1;
    }
    text_from(&chars, start, end)
}

/// Reads the flags of a value in the plain form.
pub fn split_plain(value: &str) -> (tokens: Vec<String>)
    ensures
        texts(tokens@) == plain_tokens(value@),
{
    let pieces = split_text(value, SPACE);
    let ghost trim_all = |t: Seq<char>| trimmed(t);
    let ghost keep = |t: Seq<char>| t.len() > 0;
    let ghost all = texts(pieces@).map_values(trim_all);
    let mut tokens: Vec<String> = Vec::new();
    let mut i: usize = 0;
    proof {
        reveal(Seq::filter);
        assert(all.take(0).filter(keep) == Seq::<Seq<char>>::empty());
    }
    while i < pieces.len()
        invariant
            i <= pieces.len(),
            all == texts(pieces@).map_values(trim_all),
            trim_all == |t: Seq<char>| trimmed(t),
            keep == |t: Seq<char>| t.len() > 0,
            texts(tokens@) == all.take(i as int).filter(keep),
        decreases pieces.len() - i,
    {
        let token = trim(pieces[i].as_str());
        proof {
            reveal(Seq::filter);
            let upto = all.take(i + 1);
            assert(upto.drop_last() == all.take(i as int));
            assert(upto.last() == token@);
        }
        if token.as_str().unicode_len() > 0 {
            let ghost shown = texts(tokens@);
            tokens.push(token);
            assert(texts(tokens@) == shown.push(token@));
        }
        i += 1;
    }
    assert(all.take(i as int) == all);
    tokens
}

/// Writes a list of flags in the encoded form.
pub fn join_encoded(tokens: &Vec<String>) -> (value: String)
    ensures
        value@ == join(texts(tokens@), UNIT_SEPARATOR),
{
    let mut value = String::new();
    let mut i: usize = 0;
    while i < tokens.len()
        invariant
            i <= tokens.len(),
            value@ == join(texts(tokens@).take(i as int), UNIT_SEPARATOR),
        decreases tokens.len() - i,
    {
        proof {
            let upto = texts(tokens@).take(i + 1);
            assert(upto.drop_last() == texts(tokens@).take(i as int));
            assert(upto.last() == tokens@[i as int]@);
        }
        if i > 0 {
            push_char(&mut value, UNIT_SEPARATOR);
        }
        value.append(tokens[i].as_str());
        i += 1;
    }
    assert(texts(tokens@).take(i as int) == texts(tokens@));
    value
}

/// Works out the value of the global compiler flags for the build.
///
/// `encoded` and `plain` are the values already set in the two forms, where
/// they are set and are text. `runtime_dir` is the directory that holds the
/// runtime builtins.
pub fn merge_flags(encoded: Option<&str>, plain: Option<&str>, runtime_dir: &str) -> (value: String)
    ensures
        value@ == merged_flags(
            match encoded {
                Some(e) => Some(e@),
                None => None,
            },
            match plain {
                Some(p) => Some(p@),
                None => None,
            },
            runtime_dir@,
        ),
{
    let mut tokens = match encoded {
        Some(e) => split_text(e, UNIT_SEPARATOR),
        None => match plain {
            Some(p) => split_plain(p),
            None => Vec::new(),
        },
    };
    let ghost present = texts(tokens@);
    tokens.push(String::from_str("-L"));
    tokens.push(String::from_str(runtime_dir));
    tokens.push(String::from_str("-l"));
    tokens.push(String::from_str(BUILTINS_LIBRARY));
    assert(texts(tokens@) == present + builtins_tokens(runtime_dir@));
    join_encoded(&tokens)
}

/// Cutting a value never leaves it without pieces.
proof fn lemma_split_has_pieces(s: Seq<char>, sep: char)
    ensures
        split(s, sep).len() >= 1,
    decreases s.len(),
{
    if s.len() > 0 {
        lemma_split_has_pieces(s.drop_last(), sep);
    }
}

/// Joining two lists of pieces one after the other is joining each and
/// putting one separator between them.
proof fn lemma_join_concat(a: Seq<Seq<char>>, b: Seq<Seq<char>>, sep: char)
    requires
        a.len() >= 1,
        b.len() >= 1,
    ensures
        join(a + b, sep) == join(a, sep).push(sep) + join(b, sep),
    decreases b.len(),
{
    let whole = a + b;
    assert(whole.drop_last() == a + b.drop_last());
    assert(whole.last() == b.last());
    if b.len() == 1 {
        assert(a + b.drop_last() == a);
    } else {
        lemma_join_concat(a, b.drop_last(), sep);
        assert(join(whole, sep) == (join(a, sep).push(sep) + join(b.drop_last(), sep)).push(sep)
            + b.last());
        assert(join(whole, sep) == join(a, sep).push(sep) + (join(b.drop_last(), sep).push(sep)
            + b.last()));
    }
}

/// Cutting a value at a separator and joining the pieces with the same
/// separator gives the value back.
pub proof fn law_join_restores_split(s: Seq<char>, sep: char)
    ensures
        join(split(s, sep), sep) == s,
    decreases s.len(),
{
    if s.len() > 0 {
        let before = split(s.drop_last(), sep);
        lemma_split_has_pieces(s.drop_last(), sep);
        law_join_restores_split(s.drop_last(), sep);
        assert(s == s.drop_last().push(s.last()));
        if s.last() == sep {
            let parts = before.push(Seq::empty());
            assert(parts.drop_last() == before);
            assert(join(parts, sep) == join(before, sep).push(sep) + Seq::<char>::empty());
        } else {
            let grown = before.last().push(s.last());
            let parts = before.drop_last().push(grown);
            assert(parts.drop_last() == before.drop_last());
            if before.len() > 1 {
                assert(join(parts, sep) == join(before.drop_last(), sep).push(sep) + grown);
                assert(join(parts, sep) == (join(before.drop_last(), sep).push(sep)
                    + before.last()).push(s.last()));
            }
        }
    }
}

/// Where the global compiler flags are already set in the encoded form, the
/// value for the build holds the flags that were set, as they were, followed
/// by exactly the flags for the runtime builtins: it is the value that was
/// set, one separator, and those flags in the encoded form. The plain form is
/// then not looked at.
pub proof fn law_encoded_flags_are_kept(
    encoded: Seq<char>,
    plain: Option<Seq<char>>,
    runtime_dir: Seq<char>,
)
    ensures
        present_tokens(Some(encoded), plain) == split(encoded, UNIT_SEPARATOR),
        merged_flags(Some(encoded), plain, runtime_dir) == encoded.push(UNIT_SEPARATOR) + join(
            builtins_tokens(runtime_dir),
            UNIT_SEPARATOR,
        ),
        join(builtins_tokens(runtime_dir), UNIT_SEPARATOR) == "-L"@.push(UNIT_SEPARATOR)
            + runtime_dir.push(UNIT_SEPARATOR) + "-l"@.push(UNIT_SEPARATOR) + BUILTINS_LIBRARY@,
{
    lemma_split_has_pieces(encoded, UNIT_SEPARATOR);
    law_join_restores_split(encoded, UNIT_SEPARATOR);
    lemma_join_concat(
        split(encoded, UNIT_SEPARATOR),
        builtins_tokens(runtime_dir),
        UNIT_SEPARATOR,
    );
    let added = builtins_tokens(runtime_dir);
    reveal_with_fuel(join, 5);
    assert(added.drop_last() == seq!["-L"@, runtime_dir, "-l"@]);
    assert(added.drop_last().drop_last() == seq!["-L"@, runtime_dir]);
    assert(added.drop_last().drop_last().drop_last() == seq!["-L"@]);
    assert(join(added, UNIT_SEPARATOR) == "-L"@.push(UNIT_SEPARATOR) + runtime_dir.push(
        UNIT_SEPARATOR,
    ) + "-l"@.push(UNIT_SEPARATOR) + BUILTINS_LIBRARY@);
}

/// What is left of a value without the white space at its start does not
/// start with white space.
proof fn lemma_start_is_trimmed(s: Seq<char>)
    ensures
        trimmed_start(s).len() > 0 ==> !is_space(trimmed_start(s)[0]),
    decreases s.len(),
{
    if s.len() > 0 && is_space(s[0]) {
        lemma_start_is_trimmed(s.skip(1));
    }
}

/// Taking the white space off the end of a value leaves its start alone, and
/// what is left does not end in white space.
proof fn lemma_end_is_trimmed(s: Seq<char>)
    ensures
        trimmed_end(s).len() > 0 ==> !is_space(trimmed_end(s).last()) && trimmed_end(s)[0] == s[0],
    decreases s.len(),
{
    if s.len() > 0 && is_space(s.last()) {
        lemma_end_is_trimmed(s.drop_last());
    }
}

/// Every flag read from a value in the plain form holds something, and
/// neither starts nor ends with white space.
pub proof fn law_plain_tokens_are_trimmed(value: Seq<char>, i: int)
    requires
        0 <= i < plain_tokens(value).len(),
    ensures
        plain_tokens(value)[i].len() > 0,
        !is_space(plain_tokens(value)[i][0]),
        !is_space(plain_tokens(value)[i].last()),
{
    let pieces = split(value, SPACE).map_values(|t: Seq<char>| trimmed(t));
    let keep = |t: Seq<char>| t.len() > 0;
    let token = plain_tokens(value)[i];
    pieces.lemma_filter_pred(keep, i);
    assert(keep(token));
    assert(pieces.filter(keep).contains(token));
    pieces.lemma_filter_contains_rev(keep, token);
    let k = choose|k: int| 0 <= k < pieces.len() && pieces[k] == token;
    let piece = split(value, SPACE)[k];
    assert(token == trimmed(piece));
    lemma_start_is_trimmed(piece);
    lemma_end_is_trimmed(trimmed_start(piece));
}

} // verus!
