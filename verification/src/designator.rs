//! Matching of band codes inside a designator.
use crate::carrier::Carrier;
use crate::error::Error;
use crate::text::{chars_of, is_cut, is_letter_or_digit, to_uppercase, trim, uppercase};
use vstd::prelude::*;

verus! {

/// Whether `pattern` stands in `text` from position `at` on.
pub open spec fn occurs_at(text: Seq<char>, pattern: Seq<char>, at: int) -> bool {
    &&& 0 <= at
    &&& at + pattern.len() <= text.len()
    &&& text.subrange(at, at + pattern.len()) == pattern
}

/// Whether `pattern` stands somewhere in `text`, as one piece.
pub open spec fn occurs(text: Seq<char>, pattern: Seq<char>) -> bool {
    exists|at: int| occurs_at(text, pattern, at)
}

/// Tells whether `pattern` stands in `text` from position `at` on.
fn matches_at(text: &[char], pattern: &[char], at: usize) -> (found: bool)
    requires
        at + pattern.len() <= text.len(),
    ensures
        found == occurs_at(text@, pattern@, at as int),
{
    let mut k: usize = 0;
    while k < pattern.len()
        invariant
            k <= pattern.len(),
            at + pattern.len() <= text.len(),
            forall|j: int| 0 <= j < k ==> text@[at + j] == pattern@[j],
        decreases pattern.len() - k,
    {
        if text[at + k] != pattern[k] {
            assert(text@.subrange(at as int, at + pattern.len())[k as int] != pattern@[k as int]);
            return false;
        }
        k += 1;
    }
    assert(text@.subrange(at as int, at + pattern.len()) =~= pattern@);
    true
}

/// Tells whether `pattern` stands somewhere in `text`, as one piece.
pub fn contains(text: &[char], pattern: &[char]) -> (found: bool)
    ensures
        found == occurs(text@, pattern@),
{
    if pattern.len() > text.len() {
        return false;
    }
    let last: usize = text.len() - pattern.len();
    let mut at: usize = 0;
    while at < last
        invariant
            last == text.len() - pattern.len(),
            at <= last,
            forall|j: int| 0 <= j < at ==> !occurs_at(text@, pattern@, j),
        decreases last - at,
    {
        if matches_at(text, pattern, at) {
            return true;
        }
        at += 1;
    }
    matches_at(text, pattern, last)
}

/// Tells whether the code made of `first` and `second` stands in `text`.
fn has_pair(text: &[char], first: char, second: char) -> (found: bool)
    ensures
        found == occurs(text@, seq![first, second]),
{
    let code: [char; 2] = [first, second];
    assert(code@ =~= seq![first, second]);
    contains(text, &code)
}

/// Tells whether the code made of `only` alone stands in `text`.
fn has_one(text: &[char], only: char) -> (found: bool)
    ensures
        found == occurs(text@, seq![only]),
{
    let code: [char; 1] = [only];
    assert(code@ =~= seq![only]);
    contains(text, &code)
}

impl Carrier {
    /// The carrier that an upper-case designator names.
    ///
    /// A designator names a carrier by holding one of its band codes
    /// somewhere. The codes are looked for in a fixed order and the first
    /// that is found decides. "G3" resolves to G1.
    pub open spec fn resolve(text: Seq<char>) -> Result<Carrier, Error> {
        if occurs(text, seq!['L', '1']) || occurs(text, seq!['E', '1']) || occurs(
            text,
            seq!['B', '1'],
        ) {
            Ok(Carrier::L1)
        } else if occurs(text, seq!['L', '5']) || occurs(text, seq!['E', '5']) || occurs(
            text,
            seq!['B', '5'],
        ) || occurs(text, seq!['I', '5']) {
            Ok(Carrier::L5)
        } else if occurs(text, seq!['B', '8']) || occurs(text, seq!['E', '8']) {
            Ok(Carrier::B8E8)
        } else if occurs(text, seq!['L', '6']) {
            Ok(Carrier::L6)
        } else if occurs(text, seq!['B', '6']) {
            Ok(Carrier::B6)
        } else if occurs(text, seq!['B', '2']) {
            Ok(Carrier::B2)
        } else if occurs(text, seq!['G', '1']) {
            Ok(Carrier::G1)
        } else if occurs(text, seq!['G', '2']) {
            Ok(Carrier::G2)
        } else if occurs(text, seq!['G', '3']) {
            Ok(Carrier::G1)
        } else if occurs(text, seq!['S']) {
            Ok(Carrier::S)
        } else {
            Err(Error::UnknownCarrierSignal)
        }
    }

    /// Resolves the characters of an upper-case designator.
    fn from_chars(text: &[char]) -> (carrier: Result<Carrier, Error>)
        ensures
            carrier == Carrier::resolve(text@),
    {
        if has_pair(text, 'L', '1') || has_pair(text, 'E', '1') || has_pair(text, 'B', '1') {
            Ok(Carrier::L1)
        } else if has_pair(text, 'L', '5') || has_pair(text, 'E', '5') || has_pair(text, 'B', '5')
            || has_pair(text, 'I', '5') {
            Ok(Carrier::L5)
        } else if has_pair(text, 'B', '8') || has_pair(text, 'E', '8') {
            Ok(Carrier::B8E8)
        } else if has_pair(text, 'L', '6') {
            Ok(Carrier::L6)
        } else if has_pair(text, 'B', '6') {
            Ok(Carrier::B6)
        } else if has_pair(text, 'B', '2') {
            Ok(Carrier::B2)
        } else if has_pair(text, 'G', '1') {
            Ok(Carrier::G1)
        } else if has_pair(text, 'G', '2') {
            Ok(Carrier::G2)
        } else if has_pair(text, 'G', '3') {
            Ok(Carrier::G1)
        } else if has_one(text, 'S') {
            Ok(Carrier::S)
        } else {
            Err(Error::UnknownCarrierSignal)
        }
    }

    /// Resolves a designator that is in upper case already.
    ///
    /// White space at the two ends is taken off before the codes are looked
    /// for; as no code holds white space, the outcome is that of the whole
    /// text.
    pub fn from_uppercase(text: &str) -> (carrier: Result<Carrier, Error>)
        ensures
            carrier == Carrier::resolve(text@),
    {
        let kept = trim(text);
        let chars = chars_of(kept);
        proof {
            let from = choose|from: int|
                0 <= from <= text@.len() - kept@.len()
                    && #[trigger] text@.subrange(from, from + kept@.len()) == kept@
                    && (forall|k: int|
                        is_cut(text@.len(), from, kept@.len(), k) ==> !is_letter_or_digit(
                            #[trigger] text@[k],
                        ));
            lemma_margins_do_not_matter(text@, from, from + kept@.len());
        }
        Carrier::from_chars(chars.as_slice())
    }

    /// Resolves a designator, in whatever case it is written.
    ///
    /// The text is put in upper case and then resolved: `UnknownCarrierSignal`
    /// is returned where no band code stands in it.
    pub fn from_str(text: &str) -> (carrier: Result<Carrier, Error>)
        ensures
            carrier == Carrier::resolve(uppercase(text@)),
    {
        let upper = to_uppercase(text);
        Carrier::from_uppercase(upper.as_str())
    }
}

impl core::str::FromStr for Carrier {
    type Err = Error;

    /// Resolves a designator, in whatever case it is written.
    fn from_str(text: &str) -> (carrier: Result<Carrier, Error>)
        ensures
            carrier == Carrier::resolve(uppercase(text@)),
    {
        Carrier::from_str(text)
    }
}

/// A code that starts and ends with a letter or digit stands in a text
/// exactly if it stands in the piece of it from `from` up to `to`, as long as
/// no letter or digit is left outside that piece.
proof fn lemma_occurs_in_piece(text: Seq<char>, code: Seq<char>, from: int, to: int)
    requires
        0 <= from <= to <= text.len(),
        code.len() > 0,
        is_letter_or_digit(code.first()),
        is_letter_or_digit(code.last()),
        forall|k: int|
            0 <= k < from || to <= k < text.len() ==> !is_letter_or_digit(#[trigger] text[k]),
    ensures
        occurs(text.subrange(from, to), code) == occurs(text, code),
{
    let piece = text.subrange(from, to);
    if occurs(piece, code) {
        let at = choose|at: int| occurs_at(piece, code, at);
        assert(text.subrange(from + at, from + at + code.len()) =~= piece.subrange(
            at,
            at + code.len(),
        ));
        assert(occurs_at(text, code, from + at));
    }
    if occurs(text, code) {
        let at = choose|at: int| occurs_at(text, code, at);
        let found = text.subrange(at, at + code.len());
        assert(found.first() == text[at]);
        assert(found.last() == text[at + code.len() - 1]);
        assert(piece.subrange(at - from, at - from + code.len()) =~= found);
        assert(occurs_at(piece, code, at - from));
    }
}

/// What stands around a designator does not matter, as long as it holds no
/// letter and no digit: the piece of a text from `from` up to `to` resolves
/// as the whole text does, if no letter or digit is left outside it.
///
/// White space is of that kind, so a designator resolves the same with and
/// without white space at its ends.
pub proof fn lemma_margins_do_not_matter(text: Seq<char>, from: int, to: int)
    requires
        0 <= from <= to <= text.len(),
        forall|k: int|
            0 <= k < from || to <= k < text.len() ==> !is_letter_or_digit(#[trigger] text[k]),
    ensures
        Carrier::resolve(text.subrange(from, to)) == Carrier::resolve(text),
{
    lemma_occurs_in_piece(text, seq!['L', '1'], from, to);
    lemma_occurs_in_piece(text, seq!['E', '1'], from, to);
    lemma_occurs_in_piece(text, seq!['B', '1'], from, to);
    lemma_occurs_in_piece(text, seq!['L', '5'], from, to);
    lemma_occurs_in_piece(text, seq!['E', '5'], from, to);
    lemma_occurs_in_piece(text, seq!['B', '5'], from, to);
    lemma_occurs_in_piece(text, seq!['I', '5'], from, to);
    lemma_occurs_in_piece(text, seq!['B', '8'], from, to);
    lemma_occurs_in_piece(text, seq!['E', '8'], from, to);
    lemma_occurs_in_piece(text, seq!['L', '6'], from, to);
    lemma_occurs_in_piece(text, seq!['B', '6'], from, to);
    lemma_occurs_in_piece(text, seq!['B', '2'], from, to);
    lemma_occurs_in_piece(text, seq!['G', '1'], from, to);
    lemma_occurs_in_piece(text, seq!['G', '2'], from, to);
    lemma_occurs_in_piece(text, seq!['G', '3'], from, to);
    lemma_occurs_in_piece(text, seq!['S'], from, to);
}

/// A text of two characters holds a code of two exactly if it is that code.
proof fn lemma_pair_in_two(text: Seq<char>, first: char, second: char)
    requires
        text.len() == 2,
    ensures
        occurs(text, seq![first, second]) == (text[0] == first && text[1] == second),
{
    let code = seq![first, second];
    if text[0] == first && text[1] == second {
        assert(text.subrange(0, 2) =~= code);
        assert(occurs_at(text, code, 0));
    }
    if occurs(text, code) {
        let at = choose|at: int| occurs_at(text, code, at);
        assert(text.subrange(at, at + 2)[0] == code[0]);
        assert(text.subrange(at, at + 2)[1] == code[1]);
    }
}

/// A text of two characters holds a code of one exactly if one of the two is
/// that character.
proof fn lemma_one_in_two(text: Seq<char>, only: char)
    requires
        text.len() == 2,
    ensures
        occurs(text, seq![only]) == (text[0] == only || text[1] == only),
{
    let code = seq![only];
    if text[0] == only {
        assert(text.subrange(0, 1) =~= code);
        assert(occurs_at(text, code, 0));
    }
    if text[1] == only {
        assert(text.subrange(1, 2) =~= code);
        assert(occurs_at(text, code, 1));
    }
    if occurs(text, code) {
        let at = choose|at: int| occurs_at(text, code, at);
        assert(text.subrange(at, at + 1)[0] == code[0]);
    }
}

/// What a carrier is written as resolves to that carrier again, but for G3:
/// its code resolves to G1.
pub proof fn lemma_code_resolves(carrier: Carrier)
    ensures
        carrier != Carrier::G3 ==> Carrier::resolve(carrier.code()) == Ok::<Carrier, Error>(
            carrier,
        ),
        carrier == Carrier::G3 ==> Carrier::resolve(carrier.code()) == Ok::<Carrier, Error>(
            Carrier::G1,
        ),
{
    reveal_strlit("L1");
    reveal_strlit("L5");
    reveal_strlit("L6");
    reveal_strlit("G1");
    reveal_strlit("G2");
    reveal_strlit("G3");
    reveal_strlit("B2");
    reveal_strlit("B6");
    reveal_strlit("B8");
    reveal_strlit("S");
    let text = carrier.code();
    if carrier == Carrier::S {
        assert(text.subrange(0, 1) =~= seq!['S']);
        assert(occurs_at(text, seq!['S'], 0));
        assert forall|first: char, second: char| !occurs(text, seq![first, second]) by {
            assert forall|at: int| !occurs_at(text, seq![first, second], at) by {}
        }
    } else {
        lemma_pair_in_two(text, 'L', '1');
        lemma_pair_in_two(text, 'E', '1');
        lemma_pair_in_two(text, 'B', '1');
        lemma_pair_in_two(text, 'L', '5');
        lemma_pair_in_two(text, 'E', '5');
        lemma_pair_in_two(text, 'B', '5');
        lemma_pair_in_two(text, 'I', '5');
        lemma_pair_in_two(text, 'B', '8');
        lemma_pair_in_two(text, 'E', '8');
        lemma_pair_in_two(text, 'L', '6');
        lemma_pair_in_two(text, 'B', '6');
        lemma_pair_in_two(text, 'B', '2');
        lemma_pair_in_two(text, 'G', '1');
        lemma_pair_in_two(text, 'G', '2');
        lemma_pair_in_two(text, 'G', '3');
        lemma_one_in_two(text, 'S');
    }
}

/// Two designators with the same upper-case form name the same carrier, or
/// none: the case that a designator is written in does not matter.
pub proof fn lemma_case_does_not_matter(one: Seq<char>, other: Seq<char>)
    requires
        uppercase(one) == uppercase(other),
    ensures
        Carrier::resolve(uppercase(one)) == Carrier::resolve(uppercase(other)),
{
}

} // verus!
