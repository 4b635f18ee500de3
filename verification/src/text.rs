//! Text and native byte strings.
//!
//! Two kinds of string run through this library. *Text* is a `String` or
//! `&str`, seen in contracts as a sequence of characters. A *native string* is
//! a `Vec<u8>`: the bytes of a value as the operating system hands it over
//! (an argument, the value of a variable, a file name, a path). Native strings
//! need not be text. Text turns into a native string by its UTF-8 encoding.

use vstd::prelude::*;
use vstd::string::*;
use vstd::utf8::*;

verus! {

/// The native bytes of a piece of text.
pub open spec fn native(text: Seq<char>) -> Seq<u8> {
    encode_utf8(text)
}

/// A native string that may be missing, as contracts see it.
pub open spec fn optional(value: Option<Vec<u8>>) -> Option<Seq<u8>> {
    match value {
        Some(v) => Some(v@),
        None => None,
    }
}

/// The native strings that a list holds.
pub open spec fn natives(list: Seq<Vec<u8>>) -> Seq<Seq<u8>> {
    list.map_values(|item: Vec<u8>| item@)
}

/// Whether `needle` stands in `hay` at position `at`.
pub open spec fn occurs_at<T>(hay: Seq<T>, needle: Seq<T>, at: int) -> bool {
    &&& 0 <= at
    &&& at + needle.len() <= hay.len()
    &&& hay.subrange(at, at + needle.len()) == needle
}

/// Whether `needle` stands somewhere in `hay`.
pub open spec fn contains_text(hay: Seq<char>, needle: Seq<char>) -> bool {
    exists|at: int| occurs_at(hay, needle, at)
}

/// Appends one character to a string.
///
/// This is `String::push` of the standard library. Its contract is taken on
/// trust, not proved: the character is put at the end of the string, and what
/// was there stays as it is.
#[verifier::external_body]
pub(crate) fn push_char(s: &mut String, c: char)
    ensures
        final(s)@ == old(s)@.push(c),
{
    s.push(c)
}

/// Reads native bytes as text.
///
/// This is `String::from_utf8` of the standard library. Its contract is taken
/// on trust, not proved: the bytes are accepted exactly when they are
/// well-formed UTF-8, and the string then holds the characters that they
/// encode.
#[verifier::external_body]
pub(crate) fn decode(bytes: &Vec<u8>) -> (text: Option<String>)
    ensures
        text is Some <==> valid_utf8(bytes@),
        text matches Some(s) ==> s@ == decode_utf8(bytes@),
{
    String::from_utf8(bytes.clone()).ok()
}

/// The characters of a piece of text, one by one.
pub fn chars_of(s: &str) -> (chars: Vec<char>)
    ensures
        chars@ == s@,
{
    let mut chars: Vec<char> = Vec::new();
    for c in it: s.chars()
        invariant
            chars@ == it.seq().take(it.index()),
    {
        chars.push(c);
    }
    chars
}

/// The text made of the characters `chars[from..to]`.
pub fn text_from(chars: &Vec<char>, from: usize, to: usize) -> (text: String)
    requires
        from <= to <= chars.len(),
    ensures
        text@ == chars@.subrange(from as int, to as int),
{
    let mut text = String::new();
    let mut i: usize = from;
    while i < to
        invariant
            from <= i <= to <= chars.len(),
            text@ == chars@.subrange(from as int, i as int),
        decreases to - i,
    {
        push_char(&mut text, chars[i]);
        i += 1;
    }
    text
}

/// Whether two pieces of text hold the same characters.
pub fn same_text(a: &str, b: &str) -> (same: bool)
    ensures
        same == (a@ == b@),
{
    let x = chars_of(a);
    let y = chars_of(b);
    if x.len() != y.len() {
        return false;
    }
    let mut i: usize = 0;
    while i < x.len()
        invariant
            i <= x.len(),
            x.len() == y.len(),
            x@ == a@,
            y@ == b@,
            x@.take(i as int) == y@.take(i as int),
        decreases x.len() - i,
    {
        if x[i] != y[i] {
            assert(a@[i as int] != b@[i as int]);
            return false;
        }
        assert(x@.take(i + 1) == x@.take(i as int).push(x@[i as int]));
        assert(y@.take(i + 1) == y@.take(i as int).push(y@[i as int]));
        i += 1;
    }
    assert(x@ == x@.take(x.len() as int));
    assert(y@ == y@.take(y.len() as int));
    true
}

/// Whether `needle` occurs in `hay` at position `at`.
pub fn found_at(hay: &Vec<char>, needle: &Vec<char>, at: usize) -> (found: bool)
    ensures
        found == occurs_at(hay@, needle@, at as int),
{
    if at > hay.len() || needle.len() > hay.len() - at {
        return false;
    }
    let mut k: usize = 0;
    while k < needle.len()
        invariant
            k <= needle.len(),
            at + needle.len() <= hay.len(),
            forall|j: int| 0 <= j < k ==> hay@[at + j] == needle@[j],
        decreases needle.len() - k,
    {
        if hay[at + k] != needle[k] {
            assert(hay@.subrange(at as int, at + needle.len())[k as int] != needle@[k as int]);
            return false;
        }
        k += 1;
    }
    assert(hay@.subrange(at as int, at + needle.len()) =~= needle@);
    true
}

/// Whether the text `hay` begins with `prefix`.
pub fn begins_with(hay: &Vec<char>, prefix: &str) -> (begins: bool)
    ensures
        begins == occurs_at(hay@, prefix@, 0),
{
    let needle = chars_of(prefix);
    found_at(hay, &needle, 0)
}

/// Whether the text `hay` holds `needle` somewhere.
pub fn contains(hay: &str, needle: &str) -> (found: bool)
    ensures
        found == contains_text(hay@, needle@),
{
    let h = chars_of(hay);
    let n = chars_of(needle);
    if n.len() > h.len() {
        return false;
    }
    let last: usize = h.len() - n.len();
    let mut at: usize = 0;
    loop
        invariant
            at <= last,
            last == h.len() - n.len(),
            n.len() <= h.len(),
            h@ == hay@,
            n@ == needle@,
            forall|j: int| 0 <= j < at ==> !occurs_at(h@, n@, j),
        decreases last - at,
    {
        if found_at(&h, &n, at) {
            assert(occurs_at(hay@, needle@, at as int));
            return true;
        }
        if at == last {
            return false;
        }
        at += 1;
    }
}

/// Whether the native string `bytes` begins with the bytes of `prefix`.
pub fn begins_with_bytes(bytes: &Vec<u8>, prefix: &str) -> (begins: bool)
    ensures
        begins == occurs_at(bytes@, native(prefix@), 0),
{
    let needle = prefix.as_bytes();
    if needle.len() > bytes.len() {
        return false;
    }
    let mut k: usize = 0;
    while k < needle.len()
        invariant
            k <= needle.len() <= bytes.len(),
            needle@ == native(prefix@),
            forall|j: int| 0 <= j < k ==> bytes@[j] == needle@[j],
        decreases needle.len() - k,
    {
        if bytes[k] != needle[k] {
            assert(bytes@.subrange(0, needle@.len() as int)[k as int] != needle@[k as int]);
            return false;
        }
        k += 1;
    }
    assert(bytes@.subrange(0, needle@.len() as int) =~= needle@);
    true
}

/// Appends the bytes of `text` to the native string `buf`.
pub fn append_text(buf: &mut Vec<u8>, text: &str)
    ensures
        final(buf)@ == old(buf)@ + native(text@),
{
    let more = text.as_bytes();
    let mut k: usize = 0;
    while k < more.len()
        invariant
            k <= more.len(),
            more@ == native(text@),
            buf@ == old(buf)@ + more@.take(k as int),
        decreases more.len() - k,
    {
        buf.push(more[k]);
        assert(more@.take(k + 1) == more@.take(k as int).push(more@[k as int]));
        k += 1;
    }
    assert(more@.take(more@.len() as int) == more@);
}

/// Appends the native string `more` to the native string `buf`.
pub fn append_bytes(buf: &mut Vec<u8>, more: &Vec<u8>)
    ensures
        final(buf)@ == old(buf)@ + more@,
{
    let mut k: usize = 0;
    while k < more.len()
        invariant
            k <= more.len(),
            buf@ == old(buf)@ + more@.take(k as int),
        decreases more.len() - k,
    {
        buf.push(more[k]);
        assert(more@.take(k + 1) == more@.take(k as int).push(more@[k as int]));
        k += 1;
    }
    assert(more@.take(more@.len() as int) == more@);
}

/// A copy of a native string.
pub fn copy_bytes(bytes: &Vec<u8>) -> (copy: Vec<u8>)
    ensures
        copy@ == bytes@,
{
    let mut copy: Vec<u8> = Vec::new();
    append_bytes(&mut copy, bytes);
    copy
}

/// The native bytes of a piece of text.
pub fn to_native(text: &str) -> (bytes: Vec<u8>)
    ensures
        bytes@ == native(text@),
{
    let mut bytes: Vec<u8> = Vec::new();
    append_text(&mut bytes, text);
    bytes
}

} // verus!
