//! Byte strings: the facts about comparing, searching and joining them that
//! the rest of the crate relies on.

use vstd::prelude::*;

verus! {

/// Horizontal tab.
pub const TAB: u8 = 0x09;

/// Line feed.
pub const LINE_FEED: u8 = 0x0a;

/// Carriage return.
pub const CARRIAGE_RETURN: u8 = 0x0d;

/// The space.
pub const SPACE: u8 = 0x20;

/// The byte `"`.
pub const QUOTE: u8 = 0x22;

/// The byte `%`.
pub const PERCENT: u8 = 0x25;

/// The byte `&`.
pub const AMPERSAND: u8 = 0x26;

/// The byte `'`.
pub const APOSTROPHE: u8 = 0x27;

/// The byte `-`.
pub const HYPHEN: u8 = 0x2d;

/// The byte `/`.
pub const SLASH: u8 = 0x2f;

/// The byte `0`.
pub const DIGIT_ZERO: u8 = 0x30;

/// The byte `9`.
pub const DIGIT_NINE: u8 = 0x39;

/// The byte `<`.
pub const LESS_THAN: u8 = 0x3c;

/// The byte `=`.
pub const EQUALS: u8 = 0x3d;

/// The byte `>`.
pub const GREATER_THAN: u8 = 0x3e;

/// The byte `A`.
pub const UPPER_A: u8 = 0x41;

/// The byte `Z`.
pub const UPPER_Z: u8 = 0x5a;

/// The byte `_`.
pub const UNDERSCORE: u8 = 0x5f;

/// The byte `a`.
pub const LOWER_A: u8 = 0x61;

/// The byte `z`.
pub const LOWER_Z: u8 = 0x7a;

/// `needle` occurs in `hay` at offset `at`.
pub open spec fn occurs_at(hay: Seq<u8>, needle: Seq<u8>, at: int) -> bool {
    &&& 0 <= at
    &&& at + needle.len() <= hay.len()
    &&& hay.subrange(at, at + needle.len()) == needle
}

/// `needle` occurs somewhere in `hay` as a contiguous run of bytes.
pub open spec fn contains(hay: Seq<u8>, needle: Seq<u8>) -> bool {
    exists|at: int| occurs_at(hay, needle, at)
}

/// `s` begins with `prefix`.
pub open spec fn starts_with(s: Seq<u8>, prefix: Seq<u8>) -> bool {
    prefix.len() <= s.len() && s.subrange(0, prefix.len() as int) == prefix
}

/// A byte string occurs in whatever is built by putting bytes before and
/// after it.
pub proof fn lemma_contains_middle(before: Seq<u8>, needle: Seq<u8>, after: Seq<u8>)
    ensures
        contains(before + needle + after, needle),
{
    let hay = before + needle + after;
    let at: int = before.len() as int;
    assert(hay.subrange(at, at + needle.len()) =~= needle);
    assert(occurs_at(hay, needle, at));
}

/// What occurs in a byte string still occurs in it after bytes are put before
/// and after it.
pub proof fn lemma_contains_widen(before: Seq<u8>, hay: Seq<u8>, after: Seq<u8>, needle: Seq<u8>)
    requires
        contains(hay, needle),
    ensures
        contains(before + hay + after, needle),
{
    let at: int = choose|at: int| occurs_at(hay, needle, at);
    let wide = before + hay + after;
    let shifted: int = before.len() + at;
    assert(wide.subrange(shifted, shifted + needle.len()) =~= hay.subrange(
        at,
        at + needle.len(),
    ));
    assert(occurs_at(wide, needle, shifted));
}

/// Whether two byte strings are equal.
pub fn bytes_eq(a: &[u8], b: &[u8]) -> (same: bool)
    ensures
        same == (a@ == b@),
{
    if a.len() != b.len() {
        return false;
    }
    let mut i: usize = 0;
    while i < a.len()
        invariant
            a@.len() == b@.len(),
            i <= a@.len(),
            forall|k: int| 0 <= k < i ==> a@[k] == b@[k],
        decreases a@.len() - i,
    {
        if a[i] != b[i] {
            return false;
        }
        i += 1;
    }
    assert(a@ =~= b@);
    true
}

/// Whether `s` begins with `prefix`.
pub fn has_prefix(s: &[u8], prefix: &[u8]) -> (yes: bool)
    ensures
        yes == starts_with(s@, prefix@),
{
    if prefix.len() > s.len() {
        return false;
    }
    bytes_eq(vstd::slice::slice_subrange(s, 0, prefix.len()), prefix)
}

} // verus!
