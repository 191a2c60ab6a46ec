//! How a retraction request names its target.
//!
//! A request names a post either by its platform identifier, written as a
//! decimal number, or by its community-local number, written as `#` and a
//! decimal number. A decimal number is an optional `+` followed by one or
//! more of the digits `0` to `9`; leading zeros are allowed.

use vstd::prelude::*;
use crate::decimal::{parse_unsigned, scan_number, is_digit, without_sign};
use vstd::string::StrSliceExecFns;

verus! {

/// The target that a retraction request names.
#[derive(Clone, Copy, Debug, PartialEq, Eq)]
pub enum Reference {
    /// The post with this community-local number in the invoking community.
    Ordinal(usize),
    /// The post with this platform identifier.
    Post(u64),
    /// A `#` followed by something that is no number, or none that fits.
    MalformedOrdinal,
    /// Something that is no number, or none that fits.
    MalformedPost,
}

/// The target that `text` names. A text that starts with `#` is read as a
/// community-local number, any other as a platform identifier.
pub open spec fn reference_of(text: Seq<char>) -> Reference {
    if text.len() > 0 && text[0] == '#' {
        match parse_unsigned(text.subrange(1, text.len() as int), usize::MAX as nat) {
            Some(number) => Reference::Ordinal(number as usize),
            None => Reference::MalformedOrdinal,
        }
    } else {
        match parse_unsigned(text, u64::MAX as nat) {
            Some(id) => Reference::Post(id as u64),
            None => Reference::MalformedPost,
        }
    }
}

/// Reads the target that a retraction request names.
pub fn parse_reference(text: &str) -> (reference: Reference)
    ensures
        reference == reference_of(text@),
{
    let len: usize = text.unicode_len();
    let marked: bool = len > 0 && text.get_char(0) == '#';
    if !text.is_ascii() {
        // A character beyond ASCII is neither a digit nor a sign, so what
        // holds one is no number.
        proof {
            let i = choose|i: int| 0 <= i < text@.len() && !('\0' <= #[trigger] text@[i] <= '\u{7f}');
            let c = text@[i];
            assert(!is_digit(c) && c != '+' && c != '#');
            if marked {
                let rest = text@.subrange(1, len as int);
                assert(rest[i - 1] == c);
                let digits = without_sign(rest);
                if digits.len() == rest.len() {
                    assert(digits[i - 1] == c);
                } else {
                    assert(digits[i - 2] == c);
                }
            } else {
                let digits = without_sign(text@);
                if digits.len() == text@.len() {
                    assert(digits[i] == c);
                } else {
                    assert(digits[i - 1] == c);
                }
            }
        }
        return if marked {
            Reference::MalformedOrdinal
        } else {
            Reference::MalformedPost
        };
    }
    if marked {
        match scan_number(text, 1, usize::MAX as u64) {
            Some(number) => Reference::Ordinal(number as usize),
            None => Reference::MalformedOrdinal,
        }
    } else {
        assert(text@.subrange(0, len as int) =~= text@);
        match scan_number(text, 0, u64::MAX) {
            Some(id) => Reference::Post(id),
            None => Reference::MalformedPost,
        }
    }
}

} // verus!
