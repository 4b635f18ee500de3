//! The arguments of a run: which of them go on to the build driver, and which
//! target they ask for.

use vstd::prelude::*;
use vstd::string::*;
use vstd::utf8::*;
use crate::failure::{Failure, FailureView};
use crate::text::{
    begins_with, begins_with_bytes, chars_of, copy_bytes, decode, native, natives, occurs_at,
    same_text, text_from,
};

verus! {

/// How many arguments at the front are the wrapper's own: the path under
/// which it was called, and the name of the sub-command.
pub const OWN_ARGUMENTS: usize = 2;

/// The flag whose value is the next argument.
pub const TARGET_FLAG: &'static str = "--target";

/// The flag whose value follows in the same argument.
pub const TARGET_PREFIX: &'static str = "--target=";

/// The arguments that go on to the build driver: all but the wrapper's own.
pub open spec fn forwarded_of(argv: Seq<Seq<u8>>) -> Seq<Seq<u8>> {
    if argv.len() <= OWN_ARGUMENTS {
        Seq::empty()
    } else {
        argv.skip(OWN_ARGUMENTS as int)
    }
}

/// What reading the arguments from position `from` on finds, `expecting`
/// telling whether the argument before was the bare flag.
///
/// The first argument that gives a target decides, and later ones are not
/// looked at. An argument that is not text is passed over, unless it stands
/// where the value is expected or begins like the flag with a value: then it
/// is the error.
pub open spec fn target_from(args: Seq<Seq<u8>>, from: int, expecting: bool) -> Result<
    Option<Seq<char>>,
    FailureView,
>
    decreases args.len() - from,
{
    if from < 0 || from >= args.len() {
        Ok(None)
    } else if !valid_utf8(args[from]) {
        if expecting || occurs_at(args[from], native(TARGET_PREFIX@), 0) {
            Err(FailureView::ArgumentNotText { argument: args[from] })
        } else {
            target_from(args, from + 1, expecting)
        }
    } else {
        let text = decode_utf8(args[from]);
        if expecting {
            Ok(Some(text))
        } else if text == TARGET_FLAG@ {
            target_from(args, from + 1, true)
        } else if occurs_at(text, TARGET_PREFIX@, 0) {
            Ok(Some(text.skip(TARGET_PREFIX@.len() as int)))
        } else {
            target_from(args, from + 1, false)
        }
    }
}

/// The target that a list of arguments asks for, if it asks for one.
pub open spec fn target_of(args: Seq<Seq<u8>>) -> Result<Option<Seq<char>>, FailureView> {
    target_from(args, 0, false)
}

/// The view of a target that was or was not found.
pub open spec fn found_view(found: Result<Option<String>, Failure>) -> Result<
    Option<Seq<char>>,
    FailureView,
> {
    match found {
        Ok(Some(t)) => Ok(Some(t@)),
        Ok(None) => Ok(None),
        Err(e) => Err(e@),
    }
}

/// Picks the arguments that go on to the build driver.
pub fn forwarded(argv: &Vec<Vec<u8>>) -> (args: Vec<Vec<u8>>)
    ensures
        natives(args@) == forwarded_of(natives(argv@)),
{
    let mut args: Vec<Vec<u8>> = Vec::new();
    if argv.len() <= OWN_ARGUMENTS {
        assert(natives(args@) == Seq::<Seq<u8>>::empty());
        return args;
    }
    let mut i: usize = OWN_ARGUMENTS;
    while i < argv.len()
        invariant
            OWN_ARGUMENTS <= i <= argv.len(),
            natives(args@) == natives(argv@).subrange(OWN_ARGUMENTS as int, i as int),
        decreases argv.len() - i,
    {
        let ghost before = natives(args@);
        args.push(copy_bytes(&argv[i]));
        assert(natives(args@) == before.push(argv@[i as int]@));
        i += 1;
    }
    assert(natives(argv@).subrange(OWN_ARGUMENTS as int, i as int) == natives(argv@).skip(
        OWN_ARGUMENTS as int,
    ));
    args
}

/// Finds the target that a list of arguments asks for.
pub fn find_target(args: &Vec<Vec<u8>>) -> (found: Result<Option<String>, Failure>)
    ensures
        found_view(found) == target_of(natives(args@)),
{
    let mut expecting = false;
    let mut i: usize = 0;
    while i < args.len()
        invariant
            i <= args.len(),
            target_of(natives(args@)) == target_from(natives(args@), i as int, expecting),
        decreases args.len() - i,
    {
        let arg = &args[i];
        assert(natives(args@)[i as int] == arg@);
        match decode(arg) {
            None => {
                if expecting || begins_with_bytes(arg, TARGET_PREFIX) {
                    return Err(Failure::ArgumentNotText { argument: copy_bytes(arg) });
                }
            },
            Some(text) => {
                if expecting {
                    return Ok(Some(text));
                }
                if same_text(text.as_str(), TARGET_FLAG) {
                    expecting = true;
                } else {
                    let chars = chars_of(text.as_str());
                    if begins_with(&chars, TARGET_PREFIX) {
                        let skip = TARGET_PREFIX.unicode_len();
                        return Ok(Some(text_from(&chars, skip, chars.len())));
                    }
                }
            },
        }
        i += 1;
    }
    Ok(None)
}

/// What is found does not depend on what follows it.
proof fn lemma_found_stays(args: Seq<Seq<u8>>, more: Seq<Seq<u8>>, from: int, expecting: bool)
    requires
        0 <= from <= args.len(),
        target_from(args, from, expecting) != Ok::<Option<Seq<char>>, FailureView>(None),
    ensures
        target_from(args + more, from, expecting) == target_from(args, from, expecting),
    decreases args.len() - from,
{
    if from < args.len() {
        assert((args + more)[from] == args[from]);
        if !valid_utf8(args[from]) {
            if !(expecting || occurs_at(args[from], native(TARGET_PREFIX@), 0)) {
                lemma_found_stays(args, more, from + 1, expecting);
            }
        } else {
            let text = decode_utf8(args[from]);
            if expecting {
            } else if text == TARGET_FLAG@ {
                lemma_found_stays(args, more, from + 1, true);
            } else if occurs_at(text, TARGET_PREFIX@, 0) {
            } else {
                lemma_found_stays(args, more, from + 1, false);
            }
        }
    }
}

/// The first argument that gives a target decides: once a list of arguments
/// asks for a target, or fails to, no argument that follows changes that.
pub proof fn law_first_target_wins(args: Seq<Seq<u8>>, more: Seq<Seq<u8>>)
    requires
        target_of(args) != Ok::<Option<Seq<char>>, FailureView>(None),
    ensures
        target_of(args + more) == target_of(args),
{
    lemma_found_stays(args, more, 0, false);
}

} // verus!
