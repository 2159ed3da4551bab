//! Text as a sequence of characters, and what the standard library does to it.
use vstd::prelude::*;

verus! {

/// The upper-case form of a text, as Unicode defines it.
///
/// It stands for what `str::to_uppercase` returns: the conversion goes by the
/// tables of Unicode, and a character may become several.
pub uninterp spec fn uppercase(text: Seq<char>) -> Seq<char>;

/// Whether a character is white space, as Unicode defines it.
///
/// It stands for the property `White_Space`, by which `str::trim` goes and
/// which `char::is_whitespace` tells.
pub uninterp spec fn white_space(c: char) -> bool;

/// Whether `c` is a digit or an unaccented Latin letter.
pub open spec fn is_letter_or_digit(c: char) -> bool {
    ||| '0' <= c <= '9'
    ||| 'A' <= c <= 'Z'
    ||| 'a' <= c <= 'z'
}

/// Whether position `k` of a text of `len` characters lies outside the piece
/// of `kept` characters that starts at `from`.
pub open spec fn is_cut(len: nat, from: int, kept: nat, k: int) -> bool {
    0 <= k < from || from + kept <= k < len
}

/// Calls `str::to_uppercase`.
///
/// Nothing is proved of it. The contract claims that the result is the
/// upper-case form of the argument, whatever that is: it depends on the
/// argument alone.
#[verifier::external_body]
pub(crate) fn to_uppercase(text: &str) -> (upper: String)
    ensures
        upper@ == uppercase(text@),
{
    text.to_uppercase()
}

/// Calls `str::trim`.
///
/// Nothing is proved of it. The contract claims that the result is the
/// argument without the white space at its two ends: it is a piece of the
/// argument, whatever was cut off before and behind it is white space, and it
/// neither starts nor ends with white space. The contract also claims that no
/// digit and no unaccented Latin letter was cut off, as none is white space.
#[verifier::external_body]
pub(crate) fn trim(text: &str) -> (kept: &str)
    ensures
        (exists|from: int|
            0 <= from <= text@.len() - kept@.len()
                && #[trigger] text@.subrange(from, from + kept@.len()) == kept@
                && (forall|k: int|
                    is_cut(text@.len(), from, kept@.len(), k) ==> white_space(#[trigger] text@[k]))
                && (forall|k: int|
                    is_cut(text@.len(), from, kept@.len(), k) ==> !is_letter_or_digit(
                        #[trigger] text@[k],
                    ))),
        kept@.len() > 0 ==> !white_space(kept@.first()),
        kept@.len() > 0 ==> !white_space(kept@.last()),
{
    text.trim()
}

/// The characters of `text`, in order.
pub fn chars_of(text: &str) -> (chars: Vec<char>)
    ensures
        chars@ == text@,
{
    let mut chars: Vec<char> = Vec::new();
    for c in it: text.chars()
        invariant
            it.seq() == text@,
            chars@ == it.seq().take(it.index() as int),
    {
        chars.push(c);
    }
    chars
}

} // verus!
