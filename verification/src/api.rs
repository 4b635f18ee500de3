//! API levels: reading one from a native string, finding the highest one among
//! the names of a directory, and writing one in decimal.

use vstd::prelude::*;
use crate::text::optional;

verus! {

/// The byte `0`.
pub const DIGIT_ZERO: u8 = 0x30;

/// The byte `9`.
pub const DIGIT_NINE: u8 = 0x39;

/// The byte `+`.
pub const PLUS: u8 = 0x2b;

/// Whether `byte` is a decimal digit.
pub open spec fn is_digit(byte: u8) -> bool {
    DIGIT_ZERO <= byte <= DIGIT_NINE
}

/// Whether every byte of `s` is a decimal digit.
pub open spec fn all_digits(s: Seq<u8>) -> bool {
    forall|i: int| 0 <= i < s.len() ==> is_digit(#[trigger] s[i])
}

/// The number that a sequence of decimal digits writes.
pub open spec fn digits_value(s: Seq<u8>) -> nat
    decreases s.len(),
{
    if s.len() == 0 {
        0
    } else {
        digits_value(s.drop_last()) * 10 + (s.last() - DIGIT_ZERO) as nat
    }
}

/// The digits of a native string that may start with one plus sign.
pub open spec fn unsigned_part(s: Seq<u8>) -> Seq<u8> {
    if s.len() > 0 && s[0] == PLUS {
        s.skip(1)
    } else {
        s
    }
}

/// The API level that a native string writes, if it writes one: an optional
/// plus sign, then at least one decimal digit and nothing else, the number
/// being at most 255.
pub open spec fn level_of(s: Seq<u8>) -> Option<u8> {
    let digits = unsigned_part(s);
    if digits.len() > 0 && all_digits(digits) && digits_value(digits) <= u8::MAX {
        Some(digits_value(digits) as u8)
    } else {
        None
    }
}

/// The API level that names an entry of a directory, if one does. An entry
/// that could not be read, which has no name here, has none.
pub open spec fn entry_level(name: Option<Seq<u8>>) -> Option<u8> {
    match name {
        Some(n) => level_of(n),
        None => None,
    }
}

/// The entries of a directory as contracts see them: the name of each, or
/// `None` for one that could not be read.
pub open spec fn entries(list: Seq<Option<Vec<u8>>>) -> Seq<Option<Seq<u8>>> {
    list.map_values(|name: Option<Vec<u8>>| optional(name))
}

/// The highest API level that names one of the entries of a directory, if any
/// of them is named by one.
pub open spec fn highest_of(names: Seq<Option<Seq<u8>>>) -> Option<u8>
    decreases names.len(),
{
    if names.len() == 0 {
        None
    } else {
        match (highest_of(names.drop_last()), entry_level(names.last())) {
            (Some(a), Some(b)) => Some(if a >= b { a } else { b }),
            (Some(a), None) => Some(a),
            (None, found) => found,
        }
    }
}

/// The decimal digits of `n`, without leading zeros.
pub open spec fn decimal(n: nat) -> Seq<u8>
    decreases n,
{
    if n < 10 {
        seq![(DIGIT_ZERO + n) as u8]
    } else {
        decimal(n / 10).push((DIGIT_ZERO + n % 10) as u8)
    }
}

/// More digits never write a smaller number.
proof fn lemma_digits_grow(s: Seq<u8>, n: int)
    requires
        0 <= n <= s.len(),
        all_digits(s),
    ensures
        digits_value(s.take(n)) <= digits_value(s),
    decreases s.len() - n,
{
    if n < s.len() {
        let longer = s.take(n + 1);
        assert(longer.drop_last() == s.take(n));
        assert(is_digit(s[n]));
        assert(longer.last() == s[n]);
        lemma_digits_grow(s, n + 1);
    } else {
        assert(s.take(n) == s);
    }
}

/// Reads an API level from a native string.
pub fn parse_level(s: &Vec<u8>) -> (level: Option<u8>)
    ensures
        level == level_of(s@),
{
    let start: usize = if s.len() > 0 && s[0] == PLUS { 1 } else { 0 };
    let ghost digits = unsigned_part(s@);
    assert(digits == s@.skip(start as int));
    if start == s.len() {
        return None;
    }
    let mut value: u32 = 0;
    let mut i: usize = start;
    while i < s.len()
        invariant
            start <= i <= s.len(),
            digits == s@.skip(start as int),
            digits == unsigned_part(s@),
            all_digits(digits.take(i - start)),
            value == digits_value(digits.take(i - start)),
            value <= u8::MAX,
        decreases s.len() - i,
    {
        let byte = s[i];
        let ghost before = digits.take(i - start);
        let ghost after = digits.take(i + 1 - start);
        assert(after.drop_last() == before);
        assert(after.last() == byte);
        if byte < DIGIT_ZERO || byte > DIGIT_NINE {
            assert(!is_digit(digits[i - start]));
            return None;
        }
        let digit: u32 = (byte - DIGIT_ZERO) as u32;
        value = value * 10 + digit;
        assert forall|k: int| 0 <= k < after.len() implies is_digit(#[trigger] after[k]) by {
            if k < before.len() {
                assert(after[k] == before[k]);
            }
        }
        if value > u8::MAX as u32 {
            proof {
                if all_digits(digits) {
                    lemma_digits_grow(digits, i + 1 - start);
                }
            }
            return None;
        }
        i += 1;
    }
    assert(digits.take(i - start) == digits);
    Some(value as u8)
}

/// Finds the highest API level among the entries of a directory. Entries
/// that could not be read, and names that write no API level, are passed
/// over.
pub fn highest_level(names: &Vec<Option<Vec<u8>>>) -> (level: Option<u8>)
    ensures
        level == highest_of(entries(names@)),
{
    let mut best: Option<u8> = None;
    let mut i: usize = 0;
    while i < names.len()
        invariant
            i <= names.len(),
            best == highest_of(entries(names@).take(i as int)),
        decreases names.len() - i,
    {
        let found = match &names[i] {
            Some(name) => parse_level(name),
            None => None,
        };
        proof {
            let upto = entries(names@).take(i + 1);
            assert(upto.drop_last() == entries(names@).take(i as int));
            assert(upto.last() == optional(names@[i as int]));
        }
        best = match (best, found) {
            (Some(a), Some(b)) => Some(if a >= b { a } else { b }),
            (Some(a), None) => Some(a),
            (None, f) => f,
        };
        i += 1;
    }
    assert(entries(names@).take(i as int) == entries(names@));
    best
}

/// Appends the decimal digits of an API level to a native string.
pub fn append_level(buf: &mut Vec<u8>, level: u8)
    ensures
        final(buf)@ == old(buf)@ + decimal(level as nat),
{
    let ghost n = level as nat;
    reveal_with_fuel(decimal, 3);
    if level >= 100 {
        buf.push(DIGIT_ZERO + level / 100);
    }
    if level >= 10 {
        buf.push(DIGIT_ZERO + (level / 10) % 10);
    }
    buf.push(DIGIT_ZERO + level % 10);
    assert(buf@ =~= old(buf)@ + decimal(n));
}

/// The highest API level among the entries of a directory names one of
/// them, and none of them is named by a higher one. There is none exactly
/// where no entry is named by an API level.
pub proof fn law_highest_is_maximum(names: Seq<Option<Seq<u8>>>)
    ensures
        highest_of(names) is None <==> forall|i: int|
            0 <= i < names.len() ==> entry_level(#[trigger] names[i]) is None,
        highest_of(names) matches Some(top) ==> {
            &&& exists|i: int|
                0 <= i < names.len() && entry_level(#[trigger] names[i]) == Some(top)
            &&& forall|i: int|
                0 <= i < names.len() ==> (entry_level(#[trigger] names[i]) matches Some(level)
                    ==> level <= top)
        },
    decreases names.len(),
{
    if names.len() > 0 {
        let before = names.drop_last();
        law_highest_is_maximum(before);
        assert forall|i: int| 0 <= i < before.len() implies before[i] == names[i] by {}
        match highest_of(names) {
            Some(top) => {
                if entry_level(names.last()) == Some(top) {
                    assert(entry_level(names[names.len() - 1]) == Some(top));
                } else {
                    let i = choose|i: int|
                        0 <= i < before.len() && entry_level(#[trigger] before[i]) == Some(top);
                    assert(entry_level(names[i]) == Some(top));
                }
                assert forall|i: int| 0 <= i < names.len() implies (entry_level(
                    #[trigger] names[i],
                ) matches Some(level) ==> level <= top) by {
                    if i < before.len() {
                        assert(names[i] == before[i]);
                    }
                }
            },
            None => {
                assert forall|i: int| 0 <= i < names.len() implies entry_level(
                    #[trigger] names[i],
                ) is None by {
                    if i < before.len() {
                        assert(names[i] == before[i]);
                    }
                }
            },
        }
        if forall|i: int| 0 <= i < names.len() ==> entry_level(#[trigger] names[i]) is None {
            assert forall|i: int| 0 <= i < before.len() implies entry_level(
                #[trigger] before[i],
            ) is None by {
                assert(before[i] == names[i]);
            }
            assert(entry_level(names[names.len() - 1]) is None);
        }
    }
}

/// The decimal digits of a number are digits, there is at least one of them,
/// and they write the number.
proof fn lemma_decimal_writes(n: nat)
    ensures
        decimal(n).len() >= 1,
        all_digits(decimal(n)),
        digits_value(decimal(n)) == n,
    decreases n,
{
    if n < 10 {
        let digits = decimal(n);
        assert(digits.drop_last() =~= Seq::<u8>::empty());
        assert(digits_value(digits.drop_last()) == 0);
    } else {
        lemma_decimal_writes(n / 10);
        let digits = decimal(n);
        assert(digits.drop_last() =~= decimal(n / 10));
        assert(digits.last() == (DIGIT_ZERO + n % 10) as u8);
        assert forall|i: int| 0 <= i < digits.len() implies is_digit(#[trigger] digits[i]) by {
            if i < digits.len() - 1 {
                assert(digits[i] == decimal(n / 10)[i]);
            }
        }
    }
}

/// An API level reads back as it was written.
pub proof fn law_level_reads_back(level: u8)
    ensures
        level_of(decimal(level as nat)) == Some(level),
{
    let digits = decimal(level as nat);
    lemma_decimal_writes(level as nat);
    assert(is_digit(digits[0]));
    assert(unsigned_part(digits) == digits);
}

} // verus!
