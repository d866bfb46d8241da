//! Random tags for names that must not collide.

use crate::text::{chars_of, copy_range, string_of};
use vstd::prelude::*;

verus! {

/// The number of characters of a tag.
pub const TAG_LENGTH: usize = 8;

/// A fresh random identifier: `uuid::Uuid::new_v4()`, written by
/// `to_string()`. The text is in the hyphenated form, which has 36
/// characters; nothing else is claimed of it, and two calls differ.
/// uuid panics where the system gives it no random bytes.
#[verifier::external_body]
pub(crate) fn random_uuid() -> (s: String)
    ensures
        s@.len() == 36,
{
    uuid::Uuid::new_v4().to_string()
}

/// The tag of `text`: its first eight characters, or all of it where it has
/// fewer.
pub open spec fn tag_of(text: Seq<char>) -> Seq<char> {
    if text.len() >= TAG_LENGTH {
        text.take(TAG_LENGTH as int)
    } else {
        text
    }
}

/// The tag of `text`.
pub fn short_tag(text: &str) -> (tag: String)
    ensures
        tag@ == tag_of(text@),
{
    let chars = chars_of(text);
    if chars.len() >= TAG_LENGTH {
        let head = copy_range(&chars, 0, TAG_LENGTH);
        string_of(&head)
    } else {
        string_of(&chars)
    }
}

/// A fresh random tag of eight characters.
pub fn random_tag() -> (tag: String)
    ensures
        tag@.len() == TAG_LENGTH,
{
    let id = random_uuid();
    short_tag(id.as_str())
}

} // verus!
