//! Small values that the sections of the configuration are made of.

use vstd::prelude::*;
use crate::config::node::{expect_no_type, untyped_errors, DecodeError};
use crate::text::{
    is_blank, pieces, pieces_are_the_text, put_together, slice_views, split, str_eq, trim, trimmed,
    trimming_takes_white_space_only, white_space,
};
use regex::Regex;

verus! {

/// A setting that a part of a configuration can be merged into.
pub trait MergeWith<Part> {
    /// Whether `after` is this setting with `part` merged into it.
    spec fn merges_to(&self, part: &Part, after: &Self) -> bool;

    fn merge_with(&mut self, part: &Part)
        ensures
            old(self).merges_to(part, final(self)),
    ;
}

/// A flag that is set by naming it, or set to an explicit value.
#[derive(Debug, Clone, Copy, PartialEq, Eq, Structural)]
pub struct Flag(pub bool);

impl MergeWith<Flag> for bool {
    open spec fn merges_to(&self, part: &Flag, after: &Self) -> bool {
        *after == part.0
    }

    fn merge_with(&mut self, part: &Flag) {
        *self = part.0;
    }
}

/// A number as it was written.
#[derive(Debug, Clone, Copy, PartialEq, Eq, Structural)]
pub enum Number {
    /// A whole number.
    Int(i32),
    /// A number with a fraction, as the bit pattern of a double.
    Decimal(u64),
}

/// A number that may be written with or without a fraction.
#[derive(Debug, Clone, Copy, PartialEq, Eq, Structural)]
pub struct FloatOrInt(pub Number);

impl Default for FloatOrInt {
    fn default() -> (r: Self)
        ensures
            r == FloatOrInt(Number::Int(0)),
    {
        FloatOrInt(Number::Int(0))
    }
}

impl MergeWith<FloatOrInt> for Number {
    open spec fn merges_to(&self, part: &FloatOrInt, after: &Self) -> bool {
        *after == part.0
    }

    fn merge_with(&mut self, part: &FloatOrInt) {
        *self = part.0;
    }
}

/// A value in a configuration file.
#[derive(Debug)]
pub enum Literal {
    Null,
    Bool(bool),
    /// A whole number; `None` where it is too large for any setting.
    Int(Option<i128>),
    /// A number with a fraction, as the bit pattern of a double; `None` where
    /// it can't be read as one.
    Decimal(Option<u64>),
    String(String),
}

/// Why a number was not accepted.
#[derive(Debug, Clone, Copy, PartialEq, Eq, Structural)]
pub enum NumberError {
    /// The number must be between these bounds.
    OutOfRange { min: i32, max: i32 },
    /// The number can't be read.
    Conversion,
    /// The value is not a number.
    Unsupported,
}

/// What a value is worth as a number between `min` and `max`. For one with a
/// fraction, `within` tells whether it is in that range.
pub open spec fn decoded_number(val: Literal, min: i32, max: i32, within: bool) -> Result<
    Number,
    NumberError,
> {
    match val {
        Literal::Int(Some(v)) => if !(i32::MIN <= v <= i32::MAX) {
            Err(NumberError::Conversion)
        } else if min <= v <= max {
            Ok(Number::Int(v as i32))
        } else {
            Err(NumberError::OutOfRange { min, max })
        },
        Literal::Decimal(Some(bits)) => if within {
            Ok(Number::Decimal(bits))
        } else {
            Err(NumberError::OutOfRange { min, max })
        },
        Literal::Int(None) | Literal::Decimal(None) => Err(NumberError::Conversion),
        _ => Err(NumberError::Unsupported),
    }
}

impl FloatOrInt {
    /// Reports a type name, as there shouldn't be any.
    pub fn type_check(type_tag: &Option<String>, errors: &mut Vec<DecodeError>)
        ensures
            final(errors)@ == old(errors)@ + untyped_errors(*type_tag),
    {
        expect_no_type(type_tag, errors);
    }

    /// Reads a number between `min` and `max`. An unacceptable value is reported
    /// and read as zero. The range of one with a fraction is checked by the
    /// caller, who tells the outcome in `within`.
    pub fn raw_decode(
        val: &Literal,
        min: i32,
        max: i32,
        within: bool,
        errors: &mut Vec<NumberError>,
    ) -> (r: FloatOrInt)
        ensures
            match decoded_number(*val, min, max, within) {
                Ok(n) => r == FloatOrInt(n) && final(errors)@ == old(errors)@,
                Err(e) => r == FloatOrInt(Number::Int(0)) && final(errors)@ == old(errors)@.push(
                    e,
                ),
            },
    {
        match val {
            Literal::Int(Some(v)) => {
                let v: i128 = *v;
                if v < i32::MIN as i128 || v > i32::MAX as i128 {
                    errors.push(NumberError::Conversion);
                    FloatOrInt::default()
                } else if v >= min as i128 && v <= max as i128 {
                    FloatOrInt(Number::Int(v as i32))
                } else {
                    errors.push(NumberError::OutOfRange { min, max });
                    FloatOrInt::default()
                }
            },
            Literal::Decimal(Some(bits)) => {
                if within {
                    FloatOrInt(Number::Decimal(*bits))
                } else {
                    errors.push(NumberError::OutOfRange { min, max });
                    FloatOrInt::default()
                }
            },
            Literal::Int(None) | Literal::Decimal(None) => {
                errors.push(NumberError::Conversion);
                FloatOrInt::default()
            },
            _ => {
                errors.push(NumberError::Unsupported);
                FloatOrInt::default()
            },
        }
    }
}

/// Why a percentage was not accepted.
#[derive(Debug, Clone, Copy, PartialEq, Eq, Structural)]
pub enum PercentError {
    /// There is no `%`.
    MissingSign,
    /// Something follows the `%`.
    TrailingCharacters,
}

/// A percentage.
#[derive(Debug, Clone, Copy)]
pub struct Percent<'a> {
    /// The number before the sign.
    pub number: &'a str,
}

/// The place of the first `c` at or after `i`, or the end.
pub open spec fn first_at(s: Seq<char>, c: char, i: int) -> int
    decreases s.len() - i,
{
    if i >= s.len() {
        s.len() as int
    } else if s[i] == c {
        i
    } else {
        first_at(s, c, i + 1)
    }
}

/// The number of a percentage.
pub open spec fn percent_of(s: Seq<char>) -> Result<Seq<char>, PercentError> {
    let at = first_at(s, '%', 0);
    if at >= s.len() {
        Err(PercentError::MissingSign)
    } else if at + 1 < s.len() {
        Err(PercentError::TrailingCharacters)
    } else {
        Ok(s.subrange(0, at))
    }
}

impl<'a> Percent<'a> {
    /// Takes apart a percentage, which is a number and a `%` behind it. The
    /// number is left to be read.
    pub fn from_str(s: &'a str) -> (r: Result<Percent<'a>, PercentError>)
        ensures
            match percent_of(s@) {
                Ok(number) => r is Ok && r->Ok_0.number@ == number,
                Err(err) => r == Err::<Percent, _>(err),
            },
    {
        let chars = crate::text::chars_of(s);
        let n: usize = chars.len();
        let mut i: usize = 0;
        while i < n
            invariant
                chars@ == s@,
                n == chars@.len(),
                i <= n,
                first_at(s@, '%', 0) == first_at(s@, '%', i as int),
            decreases n - i,
        {
            if chars[i] == '%' {
                return if i + 1 < n {
                    Err(PercentError::TrailingCharacters)
                } else {
                    Ok(Percent { number: s.substring_char(0, i) })
                };
            }
            i += 1;
        }
        Err(PercentError::MissingSign)
    }
}

/// A compiled pattern of the `regex` crate.
#[verifier::external_type_specification]
#[verifier::external_body]
pub struct ExRegex(Regex);

/// Why the `regex` crate refused a pattern.
#[verifier::external_type_specification]
#[verifier::external_body]
pub struct ExRegexError(regex::Error);

/// Whether `regex::Regex::new` accepts a pattern.
pub uninterp spec fn regex_accepts(pattern: Seq<char>) -> bool;

/// The text that `regex::Regex::as_str` returns for a compiled pattern.
pub uninterp spec fn regex_text(regex: Regex) -> Seq<char>;

/// Compiles a pattern with `regex::Regex::new`. Whether it succeeds depends on
/// the pattern alone, and what comes out gives the pattern back. What the
/// pattern matches is left to the `regex` crate.
#[verifier::external_body]
fn regex_new(pattern: &str) -> (r: Result<Regex, regex::Error>)
    ensures
        r is Ok <==> regex_accepts(pattern@),
        r matches Ok(regex) ==> regex_text(regex) == pattern@,
{
    Regex::new(pattern)
}

/// The text of a compiled pattern, from `regex::Regex::as_str`.
#[verifier::external_body]
fn regex_as_str(regex: &Regex) -> (r: &str)
    ensures
        r@ == regex_text(*regex),
{
    regex.as_str()
}

/// A compiled pattern that is equal to one with the same text.
#[derive(Debug)]
pub struct RegexEq(pub Regex);

impl PartialEq for RegexEq {
    fn eq(&self, other: &Self) -> (r: bool) {
        str_eq(regex_as_str(&self.0), regex_as_str(&other.0))
    }
}

impl vstd::std_specs::cmp::PartialEqSpecImpl for RegexEq {
    open spec fn obeys_eq_spec() -> bool {
        true
    }

    open spec fn eq_spec(&self, other: &Self) -> bool {
        regex_text(self.0) == regex_text(other.0)
    }
}

impl Eq for RegexEq {

}

/// A pattern that was refused, with the reason.
#[derive(Debug)]
pub struct PatternError(pub regex::Error);

/// The entries of a comma list.
pub open spec fn entries(s: Seq<char>) -> Seq<Seq<char>> {
    Seq::new(pieces(s, ',').len(), |i: int| trimmed(pieces(s, ',')[i]))
}

/// Whether an entry of a comma list can stand for itself.
pub open spec fn is_pattern(entry: Seq<char>) -> bool {
    entry.len() > 0 && regex_accepts(entry)
}

/// A pattern that matches what any of the given ones matches.
pub open spec fn alternatives(patterns: Seq<Seq<char>>) -> Seq<char>
    decreases patterns.len(),
{
    if patterns.len() == 0 {
        Seq::empty()
    } else {
        let group = "(?:"@ + patterns.last() + ")"@;
        if patterns.len() == 1 {
            group
        } else {
            alternatives(patterns.drop_last()) + "|"@ + group
        }
    }
}

/// Whether a setting is a list of patterns: every entry between commas is a
/// pattern by itself.
pub open spec fn is_pattern_list(s: Seq<char>) -> bool {
    &&& s.contains(',')
    &&& forall|i: int| 0 <= i < entries(s).len() ==> is_pattern(#[trigger] entries(s)[i])
}

/// The one pattern that a setting stands for: the alternatives of a list, else
/// the setting as it is.
pub open spec fn effective_pattern(s: Seq<char>) -> Seq<char> {
    if is_pattern_list(s) {
        alternatives(entries(s))
    } else {
        s
    }
}

/// A setting without a comma stands for itself.
pub proof fn single_pattern_is_unchanged(s: Seq<char>)
    requires
        !s.contains(','),
    ensures
        effective_pattern(s) == s,
{
}

/// A setting with an entry that isn't a pattern by itself, such as one with a
/// comma inside of a quantifier, stands for itself.
pub proof fn list_needs_every_entry(s: Seq<char>, i: int)
    requires
        0 <= i < entries(s).len(),
        !is_pattern(entries(s)[i]),
    ensures
        effective_pattern(s) == s,
{
}

/// The entries of a comma list, if each of them is a pattern by itself.
fn pattern_list(s: &str) -> (r: Option<Vec<&str>>)
    ensures
        match r {
            Some(list) => {
                &&& slice_views(list@) == entries(s@)
                &&& forall|i: int|
                    0 <= i < entries(s@).len() ==> is_pattern(#[trigger] entries(s@)[i])
            },
            None => exists|i: int|
                0 <= i < entries(s@).len() && !is_pattern(#[trigger] entries(s@)[i]),
        },
{
    let parts = split(s, ',');
    let mut list: Vec<&str> = Vec::new();
    let mut i: usize = 0;
    while i < parts.len()
        invariant
            slice_views(parts@) == pieces(s@, ','),
            i <= parts@.len(),
            list@.len() == i,
            forall|j: int| 0 <= j < i ==> (#[trigger] list@[j])@ == entries(s@)[j],
            forall|j: int| 0 <= j < i ==> is_pattern(#[trigger] entries(s@)[j]),
        decreases parts@.len() - i,
    {
        assert(slice_views(parts@)[i as int] == parts@[i as int]@);
        let entry = trim(parts[i]);
        assert(entries(s@)[i as int] == entry@);
        if entry.is_empty() || regex_new(entry).is_err() {
            assert(!is_pattern(entries(s@)[i as int]));
            return None;
        }
        list.push(entry);
        i += 1;
    }
    assert(parts@.len() == pieces(s@, ',').len());
    assert(slice_views(list@) =~= entries(s@));
    Some(list)
}

/// Puts patterns together into one that matches what any of them matches.
fn join_patterns(list: &Vec<&str>) -> (r: String)
    ensures
        r@ == alternatives(slice_views(list@)),
{
    let mut r = String::new();
    let mut i: usize = 0;
    proof {
        assert(slice_views(list@).take(0) =~= Seq::empty());
    }
    while i < list.len()
        invariant
            i <= list@.len(),
            r@ == alternatives(slice_views(list@).take(i as int)),
        decreases list@.len() - i,
    {
        proof {
            let next = slice_views(list@).take(i + 1);
            assert(next.drop_last() =~= slice_views(list@).take(i as int));
            assert(next.last() == list@[i as int]@);
        }
        if i > 0 {
            r.append("|");
        }
        let ghost before = r@;
        r.append("(?:");
        r.append(list[i]);
        r.append(")");
        assert(r@ =~= before + ("(?:"@ + list@[i as int]@ + ")"@));
        i += 1;
    }
    assert(slice_views(list@).take(i as int) =~= slice_views(list@));
    r
}

/// Whether a string has a comma.
fn has_comma(s: &str) -> (r: bool)
    ensures
        r == s@.contains(','),
{
    let chars = crate::text::chars_of(s);
    let mut i: usize = 0;
    while i < chars.len()
        invariant
            chars@ == s@,
            i <= chars@.len(),
            forall|j: int| 0 <= j < i ==> s@[j] != ',',
        decreases chars@.len() - i,
    {
        if chars[i] == ',' {
            assert(s@[i as int] == ',');
            return true;
        }
        i += 1;
    }
    false
}

impl RegexEq {
    /// Reads a pattern, or a list of patterns with commas between them that
    /// matches what any of them matches.
    ///
    /// A setting is a list only where every entry is a pattern by itself, so
    /// that a single pattern may hold a comma, as in a quantifier.
    pub fn from_str(s: &str) -> (r: Result<RegexEq, PatternError>)
        ensures
            r is Ok <==> regex_accepts(effective_pattern(s@)),
            r matches Ok(regex) ==> regex_text(regex.0) == effective_pattern(s@),
    {
        if has_comma(s) {
            if let Some(list) = pattern_list(s) {
                let joined = join_patterns(&list);
                return RegexEq::compile(joined.as_str());
            }
        }
        RegexEq::compile(s)
    }

    fn compile(pattern: &str) -> (r: Result<RegexEq, PatternError>)
        ensures
            r is Ok <==> regex_accepts(pattern@),
            r matches Ok(regex) ==> regex_text(regex.0) == pattern@,
    {
        match regex_new(pattern) {
            Ok(regex) => Ok(RegexEq(regex)),
            Err(err) => Err(PatternError(err)),
        }
    }
}

/// A number is accepted exactly if it is in its range, and it is what was written.
pub proof fn numbers_in_range_are_accepted(val: Literal, min: i32, max: i32, within: bool)
    ensures
        decoded_number(val, min, max, within) is Ok <==> {
            ||| val matches Literal::Int(Some(v)) && min <= v <= max
            ||| val is Decimal && val->Decimal_0 is Some && within
        },
        decoded_number(val, min, max, within) matches Ok(Number::Int(n)) ==> val == Literal::Int(
            Some(n as i128),
        ),
        decoded_number(val, min, max, within) matches Ok(Number::Decimal(bits)) ==> val
            == Literal::Decimal(Some(bits)),
        decoded_number(val, min, max, within) is Err && decoded_number(
            val,
            min,
            max,
            within,
        )->Err_0 is OutOfRange ==> decoded_number(val, min, max, within)->Err_0 == (
        NumberError::OutOfRange { min, max }),
        val is Null || val is Bool || val is String <==> decoded_number(val, min, max, within)
            == Err::<Number, NumberError>(NumberError::Unsupported),
{
}

/// The place of a character is the first one where it stands.
pub proof fn first_place_is_found(s: Seq<char>, c: char, i: int)
    requires
        0 <= i <= s.len(),
    ensures
        i <= first_at(s, c, i) <= s.len(),
        first_at(s, c, i) < s.len() ==> s[first_at(s, c, i)] == c,
        forall|j: int| i <= j < first_at(s, c, i) ==> s[j] != c,
    decreases s.len() - i,
{
    if i < s.len() && s[i] != c {
        first_place_is_found(s, c, i + 1);
    }
}

/// A text is a percentage exactly if it is a number and a `%` behind it, with no other `%`
/// and nothing behind.
pub proof fn percentages_end_in_their_sign(s: Seq<char>)
    ensures
        percent_of(s) matches Ok(number) ==> s == number.push('%') && !number.contains('%'),
        percent_of(s) matches Err(PercentError::MissingSign) ==> !s.contains('%'),
        !s.contains('%') ==> percent_of(s) == Err::<Seq<char>, PercentError>(
            PercentError::MissingSign,
        ),
        percent_of(s) matches Err(PercentError::TrailingCharacters) ==> s.drop_last().contains('%'),
        !s.contains('%') ==> percent_of(s.push('%')) == Ok::<Seq<char>, PercentError>(s),
{
    first_place_is_found(s, '%', 0);
    let at = first_at(s, '%', 0);
    if at < s.len() {
        assert(s[at] == '%');
        if at + 1 == s.len() {
            assert(s =~= s.subrange(0, at).push('%'));
        } else {
            assert(s.drop_last()[at] == '%');
        }
    }
    if !s.contains('%') {
        let t = s.push('%');
        first_place_is_found(t, '%', 0);
        let k = first_at(t, '%', 0);
        assert(t[s.len() as int] == '%');
        assert(k == s.len()) by {
            if k < s.len() {
                assert(t[k] == s[k]);
            }
        }
        assert(t.subrange(0, k) =~= s);
    }
}

/// A pattern by itself is in a group of its own, and the alternatives of two lists are those
/// of the one or those of the other.
pub proof fn alternatives_add_up(a: Seq<Seq<char>>, b: Seq<Seq<char>>, pattern: Seq<char>)
    requires
        a.len() > 0,
        b.len() > 0,
    ensures
        alternatives(seq![pattern]) == "(?:"@ + pattern + ")"@,
        alternatives(a + b) == alternatives(a) + "|"@ + alternatives(b),
    decreases b.len(),
{
    let all = a + b;
    assert(all.last() == b.last());
    if b.len() == 1 {
        assert(all.drop_last() =~= a);
    } else {
        alternatives_add_up(a, b.drop_last(), pattern);
        assert(all.drop_last() =~= a + b.drop_last());
    }
    assert(alternatives(a + b) =~= alternatives(a) + "|"@ + alternatives(b));
}

/// The entries of a list hold no comma, and neither begin nor end with white space.
pub proof fn entries_are_between_commas(s: Seq<char>, i: int)
    requires
        0 <= i < entries(s).len(),
    ensures
        !entries(s)[i].contains(','),
        entries(s)[i].len() > 0 ==> !white_space(entries(s)[i][0]) && !white_space(
            entries(s)[i].last(),
        ),
        s.contains(',') <==> entries(s).len() > 1,
{
    pieces_are_the_text(s, ',');
    let piece = pieces(s, ',')[i];
    trimming_takes_white_space_only(piece);
    let (before, after) = choose|before: Seq<char>, after: Seq<char>|
        {
            &&& #[trigger] is_blank(before)
            &&& #[trigger] is_blank(after)
            &&& piece == before + trimmed(piece) + after
        };
    if trimmed(piece).contains(',') {
        let k = choose|k: int| 0 <= k < trimmed(piece).len() && trimmed(piece)[k] == ',';
        assert(piece[before.len() + k] == ',');
    }
    let all = pieces(s, ',');
    if all.len() == 1 {
        assert(!all[0].contains(','));
    } else {
        let rest = put_together(all.skip(1), ',');
        assert(s == all[0] + seq![','] + rest);
        assert(s[all[0].len() as int] == ',');
    }
}

} // verus!
