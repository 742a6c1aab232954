//! Texts as sequences of characters, and the one operation on them that the
//! standard library computes for this crate.

use vstd::prelude::*;

verus! {

/// The lower-case form of a text, as `str::to_lowercase` computes it from the
/// Unicode case mappings. Nothing more is assumed of it: what the crate proves
/// about letter-casing, it proves for every function from texts to texts.
pub uninterp spec fn lowercase(text: Seq<char>) -> Seq<char>;

/// Calls `str::to_lowercase`. Trusted: the returned string is the lower-case
/// form of `text`, which depends on the characters of `text` alone.
#[verifier::external_body]
pub(crate) fn lowercased(text: &str) -> (lowered: String)
    ensures
        lowered@ == lowercase(text@),
{
    text.to_lowercase()
}

/// Whether `value` reads exactly as `expected`.
pub(crate) fn reads_as(value: &String, expected: &str) -> (same: bool)
    ensures
        same == (value@ == expected@),
{
    let wanted = expected.to_owned();
    *value == wanted
}

/// `head` followed by `tail`.
pub(crate) fn joined(head: &str, tail: &str) -> (text: String)
    ensures
        text@ == head@ + tail@,
{
    let mut text = head.to_owned();
    text.append(tail);
    text
}

} // verus!
