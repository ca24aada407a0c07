//! Small string operations with exact contracts over character sequences.

use vstd::prelude::*;
use vstd::utf8::encode_utf8;

verus! {

/// Number of bytes that `chars` takes when written as UTF-8.
pub open spec fn utf8_len(chars: Seq<char>) -> nat {
    encode_utf8(chars).len()
}

/// Length of `text` in bytes.
pub fn byte_len(text: &str) -> (len: usize)
    ensures
        len == utf8_len(text@),
{
    text.as_bytes().len()
}

/// Whether two strings hold the same characters.
pub fn str_equal(left: &str, right: &str) -> (same: bool)
    ensures
        same == (left@ == right@),
{
    let len = left.unicode_len();
    if len != right.unicode_len() {
        return false;
    }
    let mut at: usize = 0;
    while at < len
        invariant
            len == left@.len(),
            len == right@.len(),
            at <= len,
            forall|k: int| 0 <= k < at ==> left@[k] == right@[k],
        decreases len - at,
    {
        if left.get_char(at) != right.get_char(at) {
            return false;
        }
        at += 1;
    }
    assert(left@ =~= right@);
    true
}

/// Whether `text` begins with `prefix`.
pub fn starts_with(text: &str, prefix: &str) -> (found: bool)
    ensures
        found == prefix@.is_prefix_of(text@),
{
    let len = prefix.unicode_len();
    if text.unicode_len() < len {
        return false;
    }
    let mut at: usize = 0;
    while at < len
        invariant
            len == prefix@.len(),
            len <= text@.len(),
            at <= len,
            forall|k: int| 0 <= k < at ==> prefix@[k] == text@[k],
        decreases len - at,
    {
        if prefix.get_char(at) != text.get_char(at) {
            assert(text@.subrange(0, len as int)[at as int] == text@[at as int]);
            return false;
        }
        at += 1;
    }
    assert(prefix@ =~= text@.subrange(0, len as int));
    true
}

} // verus!
