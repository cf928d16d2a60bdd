//! Text primitives shared by the trigger rules: lowercasing, decimal digits,
//! and contiguous containment over sequences of characters.

use vstd::prelude::*;

verus! {

/// The text that `str::to_lowercase` returns for `s`.
pub uninterp spec fn lowercase(s: Seq<char>) -> Seq<char>;

/// Calls `str::to_lowercase`.
///
/// Not proved: the result is only given its name, [`lowercase`] of the
/// argument. Unicode lowercasing is a function of the text alone.
#[verifier::external_body]
pub(crate) fn to_lowercase(s: &str) -> (lower: String)
    ensures
        lower@ == lowercase(s@),
{
    s.to_lowercase()
}

/// `c` is one of the ten decimal digits `0` to `9`.
pub open spec fn is_digit(c: char) -> bool {
    '0' <= c && c <= '9'
}

/// `s` is composed only of digits. Holds of the empty text.
pub open spec fn all_numeric(s: Seq<char>) -> bool {
    forall|i: int| 0 <= i < s.len() ==> is_digit(#[trigger] s[i])
}

/// `word` stands in `text` at offset `k`, character for character.
pub open spec fn occurs_at(word: Seq<char>, text: Seq<char>, k: int) -> bool {
    &&& 0 <= k
    &&& k + word.len() <= text.len()
    &&& text.subrange(k, k + word.len()) == word
}

/// `word` is a contiguous part of `text`. The empty word is part of every
/// text, the empty text included.
pub open spec fn occurs_in(word: Seq<char>, text: Seq<char>) -> bool {
    exists|k: int| occurs_at(word, text, k)
}

/// The line that a piece of rich content adds to a flattened text: the piece
/// followed by one line break.
pub open spec fn line(piece: Seq<char>) -> Seq<char> {
    piece.push('\n')
}

/// The characters of `s`, in order.
pub fn chars_of(s: &str) -> (v: Vec<char>)
    ensures
        v@ == s@,
{
    let mut v: Vec<char> = Vec::new();
    for c in it: s.chars()
        invariant
            it.seq() == s@,
            v@ == it.seq().take(it.index() as int),
    {
        v.push(c);
    }
    v
}

/// Tests whether `word` stands in `text` at offset `k`.
pub fn matches_at(text: &Vec<char>, word: &Vec<char>, k: usize) -> (b: bool)
    requires
        k + word.len() <= text.len(),
    ensures
        b == occurs_at(word@, text@, k as int),
{
    let mut j: usize = 0;
    while j < word.len()
        invariant
            j <= word.len(),
            k + word.len() <= text.len(),
            forall|m: int| 0 <= m < j ==> text@[k + m] == word@[m],
        decreases word.len() - j,
    {
        if text[k + j] != word[j] {
            assert(text@.subrange(k as int, k + word.len())[j as int] != word@[j as int]);
            return false;
        }
        j += 1;
    }
    assert(text@.subrange(k as int, k + word.len()) =~= word@);
    true
}

/// Tests whether `word` is a contiguous part of `text`.
///
/// A presence test: how often the word occurs makes no difference.
pub fn contains(text: &Vec<char>, word: &Vec<char>) -> (b: bool)
    ensures
        b == occurs_in(word@, text@),
{
    if word.len() == 0 {
        assert(text@.subrange(0, 0) =~= word@);
        assert(occurs_at(word@, text@, 0));
        return true;
    }
    if word.len() > text.len() {
        return false;
    }
    let last: usize = text.len() - word.len();
    let mut k: usize = 0;
    while k <= last
        invariant
            k <= last + 1,
            last == text.len() - word.len(),
            last < text.len(),
            forall|m: int| 0 <= m < k ==> !occurs_at(word@, text@, m),
        decreases last + 1 - k,
    {
        if matches_at(text, word, k) {
            return true;
        }
        k += 1;
    }
    false
}

/// Tests whether `text` begins with `prefix`.
pub fn starts_with(text: &str, prefix: &str) -> (b: bool)
    ensures
        b == prefix@.is_prefix_of(text@),
{
    let t = chars_of(text);
    let p = chars_of(prefix);
    if p.len() > t.len() {
        return false;
    }
    let b = matches_at(&t, &p, 0);
    proof {
        if b {
            assert(prefix@ =~= text@.subrange(0, prefix@.len() as int));
        } else if prefix@.is_prefix_of(text@) {
            assert(text@.subrange(0, 0 + prefix@.len() as int) =~= prefix@);
        }
    }
    b
}

/// Tests whether `c` is a decimal digit.
pub fn digit(c: char) -> (b: bool)
    ensures
        b == is_digit(c),
{
    '0' <= c && c <= '9'
}

/// Tests whether `s` is composed only of digits.
pub fn only_numeric(s: &str) -> (b: bool)
    ensures
        b == all_numeric(s@),
{
    for c in it: s.chars()
        invariant
            it.seq() == s@,
            forall|i: int| 0 <= i < it.index() ==> is_digit(#[trigger] s@[i]),
    {
        if !digit(c) {
            return false;
        }
    }
    true
}

/// Appends `piece` and one line break to `text`.
pub fn push_line(text: &mut String, piece: &str)
    ensures
        final(text)@ == old(text)@ + line(piece@),
{
    text.append(piece);
    text.append("\n");
    proof {
        reveal_strlit("\n");
        assert("\n"@ =~= seq!['\n']);
        assert(text@ =~= old(text)@ + line(piece@));
    }
}

} // verus!
