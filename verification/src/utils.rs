//! Small display helpers.

use vstd::prelude::*;
use vstd::string::StrSliceExecFns;
use vstd::string::StringExecFns;

verus! {

/// Shortens an address string for display: a string longer than `length`
/// keeps its first and last `length / 2` characters around an ellipsis;
/// a string short enough is returned unchanged.
///
/// Address strings are base58 text, so the input is required to be ASCII;
/// slicing then cannot split a character.
pub fn format_pubkey(text: &String, length: usize) -> (r: String)
    requires
        text.is_ascii(),
    ensures
        text@.len() <= length ==> r@ == text@,
        text@.len() > length ==> r@ == text@.subrange(0, (length / 2) as int) + "..."@
            + text@.subrange(text@.len() - (length / 2), text@.len() as int),
{
    let s = text.as_str();
    let n = s.unicode_len();
    if n <= length {
        return text.clone();
    }
    let half_length = length / 2;
    let start = s.substring_ascii(0, half_length);
    let end = s.substring_ascii(n - half_length, n);
    let mut out = start.to_owned();
    out.append("...");
    out.append(end);
    out
}

} // verus!
