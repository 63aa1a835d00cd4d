//! Strings as sequences of characters.

use vstd::prelude::*;

verus! {

/// Whether a character has the Unicode property `White_Space`: tabs, line and
/// paragraph separators, and spaces of every width.
pub open spec fn white_space(c: char) -> bool {
    ||| '\u{9}' <= c <= '\u{d}'
    ||| c == '\u{20}'
    ||| c == '\u{85}'
    ||| c == '\u{a0}'
    ||| c == '\u{1680}'
    ||| '\u{2000}' <= c <= '\u{200a}'
    ||| c == '\u{2028}'
    ||| c == '\u{2029}'
    ||| c == '\u{202f}'
    ||| c == '\u{205f}'
    ||| c == '\u{3000}'
}

/// Asks `char::is_whitespace`, which is true exactly of the characters with the
/// Unicode property `White_Space`.
#[verifier::external_body]
fn is_white_space(c: char) -> (r: bool)
    ensures
        r == white_space(c),
{
    c.is_whitespace()
}

/// Asks `std::str::from_utf8` whether bytes are text. It accepts them exactly
/// where they are valid UTF-8.
#[verifier::external_body]
pub(crate) fn is_utf8(bytes: &[u8]) -> (r: bool)
    ensures
        r == vstd::utf8::valid_utf8(bytes@),
{
    std::str::from_utf8(bytes).is_ok()
}

/// The views of strings.
pub open spec fn views(strings: Seq<String>) -> Seq<Seq<char>> {
    Seq::new(strings.len(), |i: int| strings[i]@)
}

/// The view of an optional string.
pub open spec fn option_view(s: Option<String>) -> Option<Seq<char>> {
    match s {
        Some(s) => Some(s@),
        None => None,
    }
}

/// Whether two strings are the same.
pub fn str_eq(a: &str, b: &str) -> (r: bool)
    ensures
        r == (a@ == b@),
{
    let a = a.to_owned();
    let b = b.to_owned();
    a == b
}

/// Whether one of the strings is `s`.
pub fn contains_str(strings: &Vec<String>, s: &str) -> (r: bool)
    ensures
        r == views(strings@).contains(s@),
{
    let mut i: usize = 0;
    while i < strings.len()
        invariant
            i <= strings@.len(),
            forall|j: int| 0 <= j < i ==> strings@[j]@ != s@,
        decreases strings@.len() - i,
    {
        if str_eq(strings[i].as_str(), s) {
            assert(views(strings@)[i as int] == s@);
            return true;
        }
        i += 1;
    }
    assert forall|j: int| 0 <= j < views(strings@).len() implies views(strings@)[j] != s@ by {}
    false
}

/// A copy of the strings.
pub fn clone_strings(strings: &Vec<String>) -> (r: Vec<String>)
    ensures
        r@ == strings@,
{
    let r = strings.clone();
    assert(r@ =~= strings@);
    r
}

/// The code point of a character, of the small letter for an ASCII capital.
pub open spec fn ascii_fold(c: char) -> u32 {
    if 'A' <= c && c <= 'Z' {
        (c as u32 + 32) as u32
    } else {
        c as u32
    }
}

/// Whether two texts are the same but for the case of ASCII letters.
pub open spec fn same_ignoring_ascii_case(a: Seq<char>, b: Seq<char>) -> bool {
    &&& a.len() == b.len()
    &&& forall|i: int| 0 <= i < a.len() ==> ascii_fold(#[trigger] a[i]) == ascii_fold(b[i])
}

fn fold(c: char) -> (r: u32)
    ensures
        r == ascii_fold(c),
{
    if 'A' <= c && c <= 'Z' {
        c as u32 + 32
    } else {
        c as u32
    }
}

/// The characters of a string.
pub fn chars_of(s: &str) -> (r: Vec<char>)
    ensures
        r@ == s@,
{
    let mut r: Vec<char> = Vec::new();
    for c in it: s.chars()
        invariant
            r@ == it.seq().take(it.index() as int),
            it.seq() == s@,
    {
        r.push(c);
    }
    r
}

/// Whether two strings are the same but for the case of ASCII letters.
pub fn eq_ignore_ascii_case(a: &str, b: &str) -> (r: bool)
    ensures
        r == same_ignoring_ascii_case(a@, b@),
{
    let left = chars_of(a);
    let right = chars_of(b);
    let n: usize = left.len();
    if n != right.len() {
        return false;
    }
    let mut i: usize = 0;
    while i < n
        invariant
            i <= n,
            left@ == a@,
            right@ == b@,
            n == left@.len(),
            n == right@.len(),
            forall|j: int| 0 <= j < i ==> ascii_fold(#[trigger] a@[j]) == ascii_fold(b@[j]),
        decreases n - i,
    {
        if fold(left[i]) != fold(right[i]) {
            assert(ascii_fold(a@[i as int]) != ascii_fold(b@[i as int]));
            return false;
        }
        i += 1;
    }
    true
}

/// The first place at or after `i` that isn't white space, or the end.
pub open spec fn text_start(s: Seq<char>, i: int) -> int
    decreases s.len() - i,
{
    if i >= s.len() {
        s.len() as int
    } else if white_space(s[i]) {
        text_start(s, i + 1)
    } else {
        i
    }
}

/// The place behind the last character before `i` that isn't white space, or
/// the beginning.
pub open spec fn text_end(s: Seq<char>, i: int) -> int
    decreases i,
{
    if i <= 0 {
        0
    } else if white_space(s[i - 1]) {
        text_end(s, i - 1)
    } else {
        i
    }
}

/// A text without the white space around it.
pub open spec fn trimmed(s: Seq<char>) -> Seq<char> {
    let from = text_start(s, 0);
    let to = text_end(s, s.len() as int);
    if from >= to {
        Seq::empty()
    } else {
        s.subrange(from, to)
    }
}

/// A string without the white space around it.
pub fn trim(s: &str) -> (r: &str)
    ensures
        r@ == trimmed(s@),
{
    let chars = chars_of(s);
    let n: usize = chars.len();
    let mut from: usize = 0;
    while from < n && is_white_space(chars[from])
        invariant
            chars@ == s@,
            n == chars@.len(),
            from <= n,
            text_start(s@, 0) == text_start(s@, from as int),
        decreases n - from,
    {
        from += 1;
    }
    let mut to: usize = n;
    while to > 0 && is_white_space(chars[to - 1])
        invariant
            chars@ == s@,
            n == chars@.len(),
            to <= n,
            text_end(s@, n as int) == text_end(s@, to as int),
        decreases to,
    {
        to -= 1;
    }
    if from >= to {
        let r = s.substring_char(0, 0);
        assert(r@ =~= Seq::empty());
        r
    } else {
        s.substring_char(from, to)
    }
}

/// The pieces of a text between separators, of which the first one begins at
/// `start` and has no separator before `i`.
pub open spec fn pieces_from(s: Seq<char>, separator: char, start: int, i: int) -> Seq<Seq<char>>
    decreases s.len() - i,
{
    if i >= s.len() {
        seq![s.subrange(start, s.len() as int)]
    } else if s[i] == separator {
        seq![s.subrange(start, i)] + pieces_from(s, separator, i + 1, i + 1)
    } else {
        pieces_from(s, separator, start, i + 1)
    }
}

/// The pieces of a text between separators; a text without one is one piece.
pub open spec fn pieces(s: Seq<char>, separator: char) -> Seq<Seq<char>> {
    pieces_from(s, separator, 0, 0)
}

/// The views of string slices.
pub open spec fn slice_views(strings: Seq<&str>) -> Seq<Seq<char>> {
    Seq::new(strings.len(), |i: int| strings[i]@)
}

/// Splits a string at each separator.
pub fn split(s: &str, separator: char) -> (r: Vec<&str>)
    ensures
        slice_views(r@) == pieces(s@, separator),
        r@.len() > 0,
{
    let chars = chars_of(s);
    let n: usize = chars.len();
    let mut r: Vec<&str> = Vec::new();
    let mut start: usize = 0;
    let mut i: usize = 0;
    proof {
        assert(slice_views(r@) + pieces_from(s@, separator, 0, 0) =~= pieces(s@, separator));
    }
    while i < n
        invariant
            chars@ == s@,
            n == chars@.len(),
            start <= i <= n,
            slice_views(r@) + pieces_from(s@, separator, start as int, i as int) == pieces(
                s@,
                separator,
            ),
        decreases n - i,
    {
        if chars[i] == separator {
            let piece = s.substring_char(start, i);
            let ghost before = slice_views(r@);
            r.push(piece);
            proof {
                assert(slice_views(r@) =~= before.push(piece@));
                let rest = pieces_from(s@, separator, i + 1, i + 1);
                assert(before.push(piece@) + rest =~= before + (seq![piece@] + rest));
            }
            i += 1;
            start = i;
        } else {
            i += 1;
        }
    }
    let piece = s.substring_char(start, n);
    let ghost before = slice_views(r@);
    r.push(piece);
    proof {
        assert(slice_views(r@) =~= before + seq![piece@]);
    }
    r
}

/// Whether all of a text is white space.
pub open spec fn is_blank(s: Seq<char>) -> bool {
    forall|i: int| 0 <= i < s.len() ==> white_space(#[trigger] s[i])
}

proof fn lemma_text_start(s: Seq<char>, i: int)
    requires
        0 <= i <= s.len(),
    ensures
        i <= text_start(s, i) <= s.len(),
        forall|j: int| i <= j < text_start(s, i) ==> white_space(#[trigger] s[j]),
        text_start(s, i) < s.len() ==> !white_space(s[text_start(s, i)]),
    decreases s.len() - i,
{
    if i < s.len() && white_space(s[i]) {
        lemma_text_start(s, i + 1);
    }
}

proof fn lemma_text_end(s: Seq<char>, i: int)
    requires
        0 <= i <= s.len(),
    ensures
        0 <= text_end(s, i) <= i,
        forall|j: int| text_end(s, i) <= j < i ==> white_space(#[trigger] s[j]),
        text_end(s, i) > 0 ==> !white_space(s[text_end(s, i) - 1]),
    decreases i,
{
    if i > 0 && white_space(s[i - 1]) {
        lemma_text_end(s, i - 1);
    }
}

/// What is trimmed off a text is white space, and what is left neither begins nor ends
/// with any.
pub proof fn trimming_takes_white_space_only(s: Seq<char>)
    ensures
        exists|before: Seq<char>, after: Seq<char>| {
            &&& #[trigger] is_blank(before)
            &&& #[trigger] is_blank(after)
            &&& s == before + trimmed(s) + after
        },
        trimmed(s).len() > 0 ==> !white_space(trimmed(s)[0]) && !white_space(trimmed(s).last()),
        is_blank(s) <==> trimmed(s).len() == 0,
{
    let from = text_start(s, 0);
    let to = text_end(s, s.len() as int);
    lemma_text_start(s, 0);
    lemma_text_end(s, s.len() as int);
    if from >= to {
        assert(is_blank(s)) by {
            assert forall|i: int| 0 <= i < s.len() implies white_space(#[trigger] s[i]) by {
                if from < s.len() {
                    assert(to == 0 || !white_space(s[to - 1]));
                    assert(from >= to);
                    assert(!white_space(s[from]));
                    assert(false);
                }
            }
        }
        let none: Seq<char> = Seq::empty();
        assert(is_blank(none));
        assert(s =~= s + trimmed(s) + none);
    } else {
        let before = s.take(from);
        let after = s.skip(to);
        assert(is_blank(before));
        assert(is_blank(after));
        assert(s =~= before + trimmed(s) + after);
        assert(trimmed(s)[0] == s[from]);
        assert(trimmed(s).last() == s[to - 1]);
    }
}

/// Trimming a text twice is trimming it once.
pub proof fn trimming_twice_changes_nothing(s: Seq<char>)
    ensures
        trimmed(trimmed(s)) == trimmed(s),
{
    trimming_takes_white_space_only(s);
    let t = trimmed(s);
    lemma_text_start(t, 0);
    lemma_text_end(t, t.len() as int);
    if t.len() > 0 {
        assert(text_start(t, 0) == 0);
        assert(text_end(t, t.len() as int) == t.len());
        assert(t.subrange(0, t.len() as int) =~= t);
    }
}

/// Pieces put together again with a separator between them.
pub open spec fn put_together(pieces: Seq<Seq<char>>, separator: char) -> Seq<char>
    decreases pieces.len(),
{
    if pieces.len() == 0 {
        Seq::empty()
    } else if pieces.len() == 1 {
        pieces[0]
    } else {
        pieces[0] + seq![separator] + put_together(pieces.skip(1), separator)
    }
}

proof fn lemma_pieces_from(s: Seq<char>, separator: char, start: int, i: int)
    requires
        0 <= start <= i <= s.len(),
        forall|j: int| start <= j < i ==> s[j] != separator,
    ensures
        pieces_from(s, separator, start, i).len() > 0,
        put_together(pieces_from(s, separator, start, i), separator) == s.skip(start),
        forall|k: int|
            0 <= k < pieces_from(s, separator, start, i).len() ==> !(
            #[trigger] pieces_from(s, separator, start, i)[k]).contains(separator),
    decreases s.len() - i,
{
    let all = pieces_from(s, separator, start, i);
    if i >= s.len() {
        assert(all[0] =~= s.skip(start));
    } else if s[i] == separator {
        lemma_pieces_from(s, separator, i + 1, i + 1);
        let rest = pieces_from(s, separator, i + 1, i + 1);
        let piece = s.subrange(start, i);
        assert(all == seq![piece] + rest);
        assert(all.skip(1) =~= rest);
        assert(piece + seq![separator] + s.skip(i + 1) =~= s.skip(start));
        assert forall|k: int| 0 <= k < all.len() implies !(#[trigger] all[k]).contains(
            separator,
        ) by {
            if k > 0 {
                assert(all[k] == rest[k - 1]);
            }
        }
    } else {
        lemma_pieces_from(s, separator, start, i + 1);
    }
}

/// The pieces of a text hold no separator, and put together with it they are the text.
pub proof fn pieces_are_the_text(s: Seq<char>, separator: char)
    ensures
        pieces(s, separator).len() > 0,
        put_together(pieces(s, separator), separator) == s,
        forall|k: int|
            0 <= k < pieces(s, separator).len() ==> !(
            #[trigger] pieces(s, separator)[k]).contains(separator),
{
    lemma_pieces_from(s, separator, 0, 0);
    assert(s.skip(0) =~= s);
}

/// Two characters are the same but for case exactly if they are the same, or one is a small
/// ASCII letter and the other one is its capital.
pub proof fn case_is_that_of_ascii_letters(a: char, b: char)
    ensures
        ascii_fold(a) == ascii_fold(b) <==> {
            ||| a == b
            ||| 'A' <= a && a <= 'Z' && b as u32 == a as u32 + 32
            ||| 'A' <= b && b <= 'Z' && a as u32 == b as u32 + 32
        },
{
}

} // verus!
