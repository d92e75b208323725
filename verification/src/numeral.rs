//! Numbers as they are written in a telemetry line.
//!
//! A reading is kept as the numeral that it came as, so that it is shown
//! with the digits that it was written with: `21.0` stays `21.0`. A
//! numeral is any text that denotes a floating-point number: an optional
//! sign, then either digits with an optional point and an optional
//! exponent, or one of the words `inf`, `infinity` and `nan`, in capital or
//! small letters.

use crate::text::{
    chars_of, fraction_digits, is_integer_in, is_integer_text, is_unsigned_decimal,
    is_unsigned_decimal_in, lemma_first_index_of, lemma_first_index_of_is_first,
    lemma_integer_text_chars, lemma_unsigned_decimal_chars, unsigned_part, whole_digits,
};
use vstd::prelude::*;
use vstd::string::*;

verus! {

/// Whether `c` is the letter that stands in front of an exponent.
pub open spec fn is_exponent_mark(c: char) -> bool {
    c == 'e' || c == 'E'
}

/// The index of the first exponent mark in `s`, or `s.len()` if `s` holds
/// none.
pub open spec fn exponent_index(s: Seq<char>) -> int
    decreases s.len(),
{
    if s.len() == 0 || is_exponent_mark(s[0]) {
        0
    } else {
        1 + exponent_index(s.skip(1))
    }
}

/// The small letter of a capital letter of the alphabet from A to Z; any
/// other character itself.
pub open spec fn lowered(c: char) -> char {
    if 'A' <= c <= 'Z' {
        ((c as u32 + 32) as u8) as char
    } else {
        c
    }
}

/// Whether `b` is the word `word`, written in capital or small letters.
pub open spec fn says(b: Seq<char>, word: Seq<char>) -> bool {
    b.len() == word.len() && forall|i: int| 0 <= i < b.len() ==> lowered(#[trigger] b[i]) == word[i]
}

/// The word for infinity, in short.
pub open spec fn inf_word() -> Seq<char> {
    seq!['i', 'n', 'f']
}

/// The word for infinity, in full.
pub open spec fn infinity_word() -> Seq<char> {
    seq!['i', 'n', 'f', 'i', 'n', 'i', 't', 'y']
}

/// The word for what is not a number.
pub open spec fn nan_word() -> Seq<char> {
    seq!['n', 'a', 'n']
}

/// Whether `b` is one of the words that stand for a number that has no
/// digits: `inf`, `infinity` or `nan`.
pub open spec fn is_special_text(b: Seq<char>) -> bool {
    says(b, inf_word()) || says(b, infinity_word()) || says(b, nan_word())
}

/// Whether `b` is a number written in digits: an unsigned decimal numeral,
/// and behind it, if anything, an exponent mark and a whole number.
pub open spec fn is_number_text(b: Seq<char>) -> bool {
    let mark = exponent_index(b);
    &&& is_unsigned_decimal(b.take(mark))
    &&& mark < b.len() ==> is_integer_text(b.skip(mark + 1))
}

/// Whether `s` is a numeral: an optional sign, and then a number written
/// in digits or one of the words `inf`, `infinity` and `nan`.
pub open spec fn is_float_text(s: Seq<char>) -> bool {
    is_special_text(unsigned_part(s)) || is_number_text(unsigned_part(s))
}

/// The numeral that is shown for a value that has not arrived: `0.0`.
pub open spec fn zero_text() -> Seq<char> {
    seq!['0', '.', '0']
}

/// `exponent_index` is the one index before which no exponent mark stands
/// and at which, unless it is the end, one stands.
pub proof fn lemma_exponent_index(s: Seq<char>, k: int)
    requires
        0 <= k <= s.len(),
        forall|i: int| 0 <= i < k ==> !is_exponent_mark(s[i]),
        k < s.len() ==> is_exponent_mark(s[k]),
    ensures
        exponent_index(s) == k,
    decreases s.len(),
{
    if k > 0 {
        lemma_exponent_index(s.skip(1), k - 1);
    }
}

/// `exponent_index` lies within `s`, and an exponent mark stands at it
/// unless it is the end.
pub proof fn lemma_exponent_index_is_within(s: Seq<char>)
    ensures
        0 <= exponent_index(s) <= s.len(),
        exponent_index(s) < s.len() ==> is_exponent_mark(s[exponent_index(s)]),
    decreases s.len(),
{
    if s.len() == 0 || is_exponent_mark(s[0]) {
    } else {
        lemma_exponent_index_is_within(s.skip(1));
    }
}

/// A numeral holds no comma, so a comma can part two numerals.
pub proof fn lemma_float_text_has_no_comma(s: Seq<char>)
    requires
        is_float_text(s),
    ensures
        forall|i: int| 0 <= i < s.len() ==> s[i] != ',',
{
    let b = unsigned_part(s);
    let shift: int = s.len() - b.len();
    assert forall|i: int| 0 <= i < b.len() implies b[i] != ',' by {
        if is_special_text(b) {
            let word = if says(b, inf_word()) {
                inf_word()
            } else if says(b, infinity_word()) {
                infinity_word()
            } else {
                nan_word()
            };
            assert(lowered(b[i]) == word[i]);
            assert(word[i] != ',');
        } else {
            let mark = exponent_index(b);
            lemma_exponent_index_is_within(b);
            if i < mark {
                lemma_unsigned_decimal_chars(b.take(mark));
                assert(b.take(mark)[i] == b[i]);
            } else if i > mark {
                lemma_integer_text_chars(b.skip(mark + 1));
                assert(b.skip(mark + 1)[i - mark - 1] == b[i]);
            }
        }
    }
    assert forall|i: int| 0 <= i < s.len() implies s[i] != ',' by {
        if i >= shift {
            assert(b[i - shift] == s[i]);
        }
    }
}

/// A numeral has at least one character.
pub proof fn lemma_float_text_is_not_empty(s: Seq<char>)
    requires
        is_float_text(s),
    ensures
        s.len() >= 1,
{
    let b = unsigned_part(s);
    if !is_special_text(b) {
        lemma_exponent_index_is_within(b);
        lemma_first_index_of_is_first(b.take(exponent_index(b)), '.');
    }
}

/// The numeral `0.0` is a numeral.
pub proof fn lemma_zero_text_is_float_text()
    ensures
        is_float_text(zero_text()),
{
    let s = zero_text();
    assert(unsigned_part(s) == s);
    lemma_exponent_index(s, 3);
    assert(s.take(3) =~= s);
    lemma_first_index_of(s, '.', 1);
    assert(whole_digits(s) =~= seq!['0']);
    assert(fraction_digits(s) =~= seq!['0']);
}

/// The code of the small letter of `c`.
fn lowered_code(c: char) -> (code: u32)
    ensures
        code == lowered(c) as u32,
{
    let code: u32 = c as u32;
    if 65 <= code && code <= 90 {
        code + 32
    } else {
        code
    }
}

/// Whether `cs[lo..hi]` is the word `word`, written in capital or small
/// letters.
fn says_in(cs: &Vec<char>, lo: usize, hi: usize, word: &Vec<char>) -> (r: bool)
    requires
        lo <= hi <= cs.len(),
    ensures
        r == says(cs@.subrange(lo as int, hi as int), word@),
{
    let ghost b = cs@.subrange(lo as int, hi as int);
    if hi - lo != word.len() {
        return false;
    }
    let mut i: usize = 0;
    while i < word.len()
        invariant
            lo <= hi <= cs.len(),
            hi - lo == word.len(),
            i <= word.len(),
            b == cs@.subrange(lo as int, hi as int),
            forall|j: int| 0 <= j < i ==> lowered(#[trigger] b[j]) == word@[j],
        decreases word.len() - i,
    {
        assert(b[i as int] == cs@[lo + i]);
        let code = lowered_code(cs[lo + i]);
        let wanted: u32 = word[i] as u32;
        proof {
            vstd::utf8::char_u32_cast(lowered(b[i as int]), code);
            vstd::utf8::char_u32_cast(word@[i as int], wanted);
        }
        if code != wanted {
            return false;
        }
        i += 1;
    }
    true
}

/// Finds the first exponent mark in `cs[lo..hi]`; the result is `hi`
/// where there is none.
fn find_exponent_mark(cs: &Vec<char>, lo: usize, hi: usize) -> (at: usize)
    requires
        lo <= hi <= cs.len(),
    ensures
        at == lo + exponent_index(cs@.subrange(lo as int, hi as int)),
        lo <= at <= hi,
{
    let mut at: usize = lo;
    while at < hi && cs[at] != 'e' && cs[at] != 'E'
        invariant
            lo <= at <= hi <= cs.len(),
            forall|i: int| lo <= i < at ==> !is_exponent_mark(cs@[i]),
        decreases hi - at,
    {
        at += 1;
    }
    proof {
        lemma_exponent_index(cs@.subrange(lo as int, hi as int), at - lo);
    }
    at
}

/// Whether `cs[lo..hi]` is a numeral.
pub(crate) fn is_float_in(cs: &Vec<char>, lo: usize, hi: usize) -> (r: bool)
    requires
        lo <= hi <= cs.len(),
    ensures
        r == is_float_text(cs@.subrange(lo as int, hi as int)),
{
    let ghost s = cs@.subrange(lo as int, hi as int);
    let start = if lo < hi && (cs[lo] == '+' || cs[lo] == '-') {
        lo + 1
    } else {
        lo
    };
    let ghost b = cs@.subrange(start as int, hi as int);
    assert(unsigned_part(s) =~= b);
    let inf = vec!['i', 'n', 'f'];
    let infinity = vec!['i', 'n', 'f', 'i', 'n', 'i', 't', 'y'];
    let nan = vec!['n', 'a', 'n'];
    assert(inf@ =~= inf_word());
    assert(infinity@ =~= infinity_word());
    assert(nan@ =~= nan_word());
    if says_in(cs, start, hi, &inf) || says_in(cs, start, hi, &infinity) || says_in(
        cs,
        start,
        hi,
        &nan,
    ) {
        return true;
    }
    let mark = find_exponent_mark(cs, start, hi);
    assert(b.take(mark - start) =~= cs@.subrange(start as int, mark as int));
    if !is_unsigned_decimal_in(cs, start, mark) {
        return false;
    }
    if mark < hi {
        assert(b.skip(mark - start + 1) =~= cs@.subrange(mark + 1, hi as int));
        is_integer_in(cs, mark + 1, hi)
    } else {
        true
    }
}

/// A number, held as the numeral that it was written as.
#[derive(Debug, PartialEq, Eq)]
pub struct Numeral {
    text: String,
}

impl View for Numeral {
    type V = Seq<char>;

    closed spec fn view(&self) -> Seq<char> {
        self.text@
    }
}

impl Clone for Numeral {
    fn clone(&self) -> (copy: Self)
        ensures
            copy@ == self@,
    {
        proof {
            use_type_invariant(self);
        }
        Numeral { text: self.text.clone() }
    }
}

impl Numeral {
    #[verifier::type_invariant]
    spec fn well_formed(self) -> bool {
        is_float_text(self@)
    }

    /// The number zero, as it is shown for a value that has not arrived:
    /// `0.0`.
    pub fn zero() -> (n: Numeral)
        ensures
            n@ == zero_text(),
    {
        proof {
            reveal_strlit("0.0");
            lemma_zero_text_is_float_text();
        }
        let text = String::from_str("0.0");
        assert(text@ =~= zero_text());
        Numeral { text }
    }

    /// Reads a numeral.
    ///
    /// Returns `text` as a number if it is a numeral; returns `None` for
    /// any other text.
    pub fn parse(text: &str) -> (parsed: Option<Numeral>)
        ensures
            parsed is Some == is_float_text(text@),
            parsed matches Some(n) ==> n@ == text@,
    {
        let cs = chars_of(text);
        let n = cs.len();
        assert(cs@.subrange(0, n as int) =~= text@);
        Numeral::parse_range(text, &cs, 0, n)
    }

    /// Reads the numeral written in `text[lo..hi]`, counted in characters.
    /// `cs` holds the characters of `text`.
    pub(crate) fn parse_range(text: &str, cs: &Vec<char>, lo: usize, hi: usize) -> (parsed: Option<
        Numeral,
    >)
        requires
            cs@ == text@,
            lo <= hi <= cs.len(),
        ensures
            parsed is Some == is_float_text(text@.subrange(lo as int, hi as int)),
            parsed matches Some(n) ==> n@ == text@.subrange(lo as int, hi as int),
    {
        if is_float_in(cs, lo, hi) {
            Some(Numeral { text: text.substring_char(lo, hi).to_owned() })
        } else {
            None
        }
    }

    /// Renders the number: the numeral as it was written.
    pub fn to_text(&self) -> (text: String)
        ensures
            text@ == self@,
            is_float_text(self@),
    {
        proof {
            use_type_invariant(self);
        }
        self.text.clone()
    }
}

} // verus!
