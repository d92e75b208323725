//! Text helpers shared by the parsers and the renderers of the library.
//!
//! Contracts speak of text as `Seq<char>`, the view of `str` and `String`.

use vstd::prelude::*;
use vstd::string::*;

verus! {

/// The character that shows the decimal digit `d`.
pub open spec fn digit_char(d: int) -> char
    recommends
        0 <= d <= 9,
{
    ((d + 48) as u8) as char
}

/// Whether `c` is one of the ten decimal digits.
pub open spec fn is_digit(c: char) -> bool {
    '0' <= c <= '9'
}

/// The value of the decimal digit that `c` shows.
pub open spec fn digit_value(c: char) -> int
    recommends
        is_digit(c),
{
    (c as u32) - 48
}

/// Whether every character of `s` is a decimal digit.
pub open spec fn all_digits(s: Seq<char>) -> bool {
    forall|i: int| 0 <= i < s.len() ==> is_digit(#[trigger] s[i])
}

/// The decimal notation of `n`, without leading zeros.
pub open spec fn number_text(n: nat) -> Seq<char>
    decreases n,
{
    if n < 10 {
        seq![digit_char(n as int)]
    } else {
        number_text(n / 10).push(digit_char((n % 10) as int))
    }
}

/// The number that a run of decimal digits denotes; zero for the empty run.
pub open spec fn digits_value(s: Seq<char>) -> nat
    recommends
        all_digits(s),
    decreases s.len(),
{
    if s.len() == 0 {
        0
    } else {
        (digits_value(s.drop_last()) * 10 + digit_value(s.last())) as nat
    }
}

/// `s` without its sign, if it starts with one.
pub open spec fn unsigned_part(s: Seq<char>) -> Seq<char> {
    if s.len() > 0 && (s[0] == '+' || s[0] == '-') {
        s.skip(1)
    } else {
        s
    }
}

/// Whether `s` is a whole number in decimal notation: an optional sign and
/// at least one digit.
pub open spec fn is_integer_text(s: Seq<char>) -> bool {
    unsigned_part(s).len() > 0 && all_digits(unsigned_part(s))
}

/// The digits before the point of an unsigned decimal numeral.
pub open spec fn whole_digits(b: Seq<char>) -> Seq<char> {
    b.take(first_index_of(b, '.'))
}

/// The digits after the point of an unsigned decimal numeral; none where
/// it has no point.
pub open spec fn fraction_digits(b: Seq<char>) -> Seq<char> {
    if first_index_of(b, '.') < b.len() {
        b.skip(first_index_of(b, '.') + 1)
    } else {
        Seq::empty()
    }
}

/// Whether `b` is a number in plain decimal notation without a sign:
/// digits with at most one point among them, and at least one digit.
pub open spec fn is_unsigned_decimal(b: Seq<char>) -> bool {
    &&& all_digits(whole_digits(b))
    &&& all_digits(fraction_digits(b))
    &&& whole_digits(b).len() + fraction_digits(b).len() > 0
}

/// Whether `s` is a number in plain decimal notation: an optional sign
/// and an unsigned decimal numeral.
pub open spec fn is_decimal_text(s: Seq<char>) -> bool {
    is_unsigned_decimal(unsigned_part(s))
}

/// Whether `c` is white space, as Unicode defines it (the property
/// `White_Space`).
pub open spec fn is_space(c: char) -> bool {
    let code = c as u32;
    ||| 0x09 <= code <= 0x0D
    ||| code == 0x20
    ||| code == 0x85
    ||| code == 0xA0
    ||| code == 0x1680
    ||| 0x2000 <= code <= 0x200A
    ||| code == 0x2028
    ||| code == 0x2029
    ||| code == 0x202F
    ||| code == 0x205F
    ||| code == 0x3000
}

/// `s` without the white space it starts with.
pub open spec fn trim_start(s: Seq<char>) -> Seq<char>
    decreases s.len(),
{
    if s.len() > 0 && is_space(s[0]) {
        trim_start(s.skip(1))
    } else {
        s
    }
}

/// `s` without the white space it ends with.
pub open spec fn trim_end(s: Seq<char>) -> Seq<char>
    decreases s.len(),
{
    if s.len() > 0 && is_space(s.last()) {
        trim_end(s.drop_last())
    } else {
        s
    }
}

/// `s` without the white space at either end.
pub open spec fn trim(s: Seq<char>) -> Seq<char> {
    trim_end(trim_start(s))
}

/// The index of the first `c` in `s`, or `s.len()` if `s` holds none.
pub open spec fn first_index_of(s: Seq<char>, c: char) -> int
    decreases s.len(),
{
    if s.len() == 0 || s[0] == c {
        0
    } else {
        1 + first_index_of(s.skip(1), c)
    }
}

/// `first_index_of` is the one index before which no `c` stands and at
/// which, unless it is the end, a `c` stands.
pub proof fn lemma_first_index_of(s: Seq<char>, c: char, k: int)
    requires
        0 <= k <= s.len(),
        forall|i: int| 0 <= i < k ==> s[i] != c,
        k < s.len() ==> s[k] == c,
    ensures
        first_index_of(s, c) == k,
    decreases s.len(),
{
    if k > 0 {
        lemma_first_index_of(s.skip(1), c, k - 1);
    }
}

/// `first_index_of` lies within `s`, no `c` stands before it, and a `c`
/// stands at it unless it is the end.
pub proof fn lemma_first_index_of_is_first(s: Seq<char>, c: char)
    ensures
        0 <= first_index_of(s, c) <= s.len(),
        forall|i: int| 0 <= i < first_index_of(s, c) ==> s[i] != c,
        first_index_of(s, c) < s.len() ==> s[first_index_of(s, c)] == c,
    decreases s.len(),
{
    if s.len() == 0 || s[0] == c {
    } else {
        lemma_first_index_of_is_first(s.skip(1), c);
        assert forall|i: int| 0 <= i < first_index_of(s, c) implies s[i] != c by {
            if i > 0 {
                assert(s.skip(1)[i - 1] == s[i]);
            }
        }
    }
}

/// An unsigned decimal numeral holds digits and points only.
pub proof fn lemma_unsigned_decimal_chars(b: Seq<char>)
    requires
        is_unsigned_decimal(b),
    ensures
        forall|i: int| 0 <= i < b.len() ==> is_digit(#[trigger] b[i]) || b[i] == '.',
{
    let point = first_index_of(b, '.');
    lemma_first_index_of_is_first(b, '.');
    assert forall|i: int| 0 <= i < b.len() implies is_digit(#[trigger] b[i]) || b[i] == '.' by {
        if i < point {
            assert(whole_digits(b)[i] == b[i]);
        } else if i > point {
            assert(fraction_digits(b)[i - point - 1] == b[i]);
        }
    }
}

/// A whole number in decimal notation holds a sign in front, if any, and
/// digits.
pub proof fn lemma_integer_text_chars(s: Seq<char>)
    requires
        is_integer_text(s),
    ensures
        forall|i: int|
            0 <= i < s.len() ==> is_digit(#[trigger] s[i]) || s[i] == '+' || s[i] == '-',
{
    let b = unsigned_part(s);
    let shift: int = s.len() - b.len();
    assert forall|i: int| 0 <= i < s.len() implies is_digit(#[trigger] s[i]) || s[i] == '+'
        || s[i] == '-' by {
        if i >= shift {
            assert(b[i - shift] == s[i]);
        }
    }
}

/// Trimming the start leaves what follows the first `k` characters, where
/// those are white space and the next one is not.
pub proof fn lemma_trim_start(s: Seq<char>, k: int)
    requires
        0 <= k <= s.len(),
        forall|i: int| 0 <= i < k ==> is_space(s[i]),
        k < s.len() ==> !is_space(s[k]),
    ensures
        trim_start(s) == s.skip(k),
    decreases s.len(),
{
    if k > 0 {
        lemma_trim_start(s.skip(1), k - 1);
        assert(s.skip(1).skip(k - 1) =~= s.skip(k));
    } else {
        assert(s.skip(0) =~= s);
    }
}

/// Trimming the end leaves the first `k` characters, where all after them
/// are white space and the one before is not.
pub proof fn lemma_trim_end(s: Seq<char>, k: int)
    requires
        0 <= k <= s.len(),
        forall|i: int| k <= i < s.len() ==> is_space(s[i]),
        k > 0 ==> !is_space(s[k - 1]),
    ensures
        trim_end(s) == s.take(k),
    decreases s.len(),
{
    if k < s.len() {
        lemma_trim_end(s.drop_last(), k);
        assert(s.drop_last().take(k) =~= s.take(k));
    } else {
        assert(s.take(k) =~= s);
    }
}

/// A run of digits denotes at least what any of its beginnings denotes.
pub proof fn lemma_digits_value_grows(s: Seq<char>, k: int)
    requires
        all_digits(s),
        0 <= k <= s.len(),
    ensures
        digits_value(s.take(k)) <= digits_value(s),
    decreases s.len() - k,
{
    if k < s.len() {
        lemma_digits_value_grows(s, k + 1);
        assert(s.take(k + 1).drop_last() =~= s.take(k));
        assert(is_digit(s[k]));
        assert(s.take(k + 1).last() == s[k]);
    } else {
        assert(s.take(k) =~= s);
    }
}

/// The characters of a string, one by one.
pub fn chars_of(s: &str) -> (v: Vec<char>)
    ensures
        v@ == s@,
{
    let mut v: Vec<char> = Vec::new();
    for c in it: s.chars()
        invariant
            v@ == s@.take(it.index() as int),
            it.seq() == s@,
    {
        v.push(c);
    }
    v
}

/// Whether two strings hold the same text.
pub fn text_eq(a: &str, b: &str) -> (same: bool)
    ensures
        same == (a@ == b@),
{
    let x: String = a.to_owned();
    let y: String = b.to_owned();
    x == y
}

/// Tells a decimal digit from any other character.
pub(crate) fn is_digit_char(c: char) -> (r: bool)
    ensures
        r == is_digit(c),
{
    let code: u32 = c as u32;
    48 <= code && code <= 57
}

/// Tells white space from any other character.
pub(crate) fn is_space_char(c: char) -> (r: bool)
    ensures
        r == is_space(c),
{
    let code: u32 = c as u32;
    (0x09 <= code && code <= 0x0D) || code == 0x20 || code == 0x85 || code == 0xA0 || code
        == 0x1680 || (0x2000 <= code && code <= 0x200A) || code == 0x2028 || code == 0x2029
        || code == 0x202F || code == 0x205F || code == 0x3000
}

/// The one-character string of a decimal digit.
pub(crate) fn digit_str(d: u8) -> (s: &'static str)
    requires
        d <= 9,
    ensures
        s@ == seq![digit_char(d as int)],
{
    proof {
        reveal_strlit("0");
        reveal_strlit("1");
        reveal_strlit("2");
        reveal_strlit("3");
        reveal_strlit("4");
        reveal_strlit("5");
        reveal_strlit("6");
        reveal_strlit("7");
        reveal_strlit("8");
        reveal_strlit("9");
    }
    let s = match d {
        0 => "0",
        1 => "1",
        2 => "2",
        3 => "3",
        4 => "4",
        5 => "5",
        6 => "6",
        7 => "7",
        8 => "8",
        _ => "9",
    };
    assert(s@ =~= seq![digit_char(d as int)]);
    s
}

/// Appends the decimal notation of `n` to `out`.
pub(crate) fn push_number(out: &mut String, n: u128)
    ensures
        final(out)@ == old(out)@ + number_text(n as nat),
    decreases n,
{
    if n >= 10 {
        push_number(out, n / 10);
    }
    out.append(digit_str((n % 10) as u8));
    proof {
        if n >= 10 {
            assert(out@ =~= old(out)@ + number_text((n / 10) as nat).push(
                digit_char((n % 10) as int),
            ));
        } else {
            assert(out@ =~= old(out)@ + seq![digit_char(n as int)]);
        }
    }
}

/// Finds the first `c` in `cs[lo..hi]`; the result is `hi` where there
/// is none.
pub(crate) fn find_char(cs: &Vec<char>, lo: usize, hi: usize, c: char) -> (at: usize)
    requires
        lo <= hi <= cs.len(),
    ensures
        at == lo + first_index_of(cs@.subrange(lo as int, hi as int), c),
        lo <= at <= hi,
{
    let mut at: usize = lo;
    while at < hi && cs[at] != c
        invariant
            lo <= at <= hi <= cs.len(),
            forall|i: int| lo <= i < at ==> cs@[i] != c,
        decreases hi - at,
    {
        at += 1;
    }
    proof {
        lemma_first_index_of(cs@.subrange(lo as int, hi as int), c, at - lo);
    }
    at
}

/// Finds where `cs[lo..hi]` begins once the white space in front of it is
/// left out.
pub(crate) fn skip_spaces(cs: &Vec<char>, lo: usize, hi: usize) -> (at: usize)
    requires
        lo <= hi <= cs.len(),
    ensures
        lo <= at <= hi,
        cs@.subrange(at as int, hi as int) == trim_start(cs@.subrange(lo as int, hi as int)),
{
    let mut at: usize = lo;
    while at < hi && is_space_char(cs[at])
        invariant
            lo <= at <= hi <= cs.len(),
            forall|i: int| lo <= i < at ==> is_space(cs@[i]),
        decreases hi - at,
    {
        at += 1;
    }
    proof {
        let s = cs@.subrange(lo as int, hi as int);
        lemma_trim_start(s, at - lo);
        assert(s.skip(at - lo) =~= cs@.subrange(at as int, hi as int));
    }
    at
}

/// Finds where `cs[lo..hi]` ends once the white space behind it is left
/// out.
pub(crate) fn drop_spaces(cs: &Vec<char>, lo: usize, hi: usize) -> (at: usize)
    requires
        lo <= hi <= cs.len(),
    ensures
        lo <= at <= hi,
        cs@.subrange(lo as int, at as int) == trim_end(cs@.subrange(lo as int, hi as int)),
{
    let mut at: usize = hi;
    while at > lo && is_space_char(cs[at - 1])
        invariant
            lo <= at <= hi <= cs.len(),
            forall|i: int| at <= i < hi ==> is_space(cs@[i]),
        decreases at - lo,
    {
        at -= 1;
    }
    proof {
        let s = cs@.subrange(lo as int, hi as int);
        lemma_trim_end(s, at - lo);
        assert(s.take(at - lo) =~= cs@.subrange(lo as int, at as int));
    }
    at
}

/// Whether `cs[lo..hi]` holds digits only.
pub(crate) fn all_digits_in(cs: &Vec<char>, lo: usize, hi: usize) -> (r: bool)
    requires
        lo <= hi <= cs.len(),
    ensures
        r == all_digits(cs@.subrange(lo as int, hi as int)),
{
    let ghost s = cs@.subrange(lo as int, hi as int);
    let mut i = lo;
    while i < hi
        invariant
            lo <= i <= hi <= cs.len(),
            s == cs@.subrange(lo as int, hi as int),
            forall|j: int| lo <= j < i ==> is_digit(cs@[j]),
        decreases hi - i,
    {
        if !is_digit_char(cs[i]) {
            assert(s[i - lo] == cs@[i as int]);
            return false;
        }
        i += 1;
    }
    assert forall|j: int| 0 <= j < s.len() implies is_digit(#[trigger] s[j]) by {
        assert(s[j] == cs@[lo + j]);
    }
    true
}

/// Whether `cs[lo..hi]` is a number in plain decimal notation without a
/// sign.
pub(crate) fn is_unsigned_decimal_in(cs: &Vec<char>, lo: usize, hi: usize) -> (r: bool)
    requires
        lo <= hi <= cs.len(),
    ensures
        r == is_unsigned_decimal(cs@.subrange(lo as int, hi as int)),
{
    let ghost b = cs@.subrange(lo as int, hi as int);
    let point = find_char(cs, lo, hi, '.');
    assert(whole_digits(b) =~= cs@.subrange(lo as int, point as int));
    let after = if point < hi {
        point + 1
    } else {
        hi
    };
    assert(fraction_digits(b) =~= cs@.subrange(after as int, hi as int));
    point - lo + (hi - after) > 0 && all_digits_in(cs, lo, point) && all_digits_in(cs, after, hi)
}

/// Whether `cs[lo..hi]` is a whole number in decimal notation.
pub(crate) fn is_integer_in(cs: &Vec<char>, lo: usize, hi: usize) -> (r: bool)
    requires
        lo <= hi <= cs.len(),
    ensures
        r == is_integer_text(cs@.subrange(lo as int, hi as int)),
{
    let start = if lo < hi && (cs[lo] == '+' || cs[lo] == '-') {
        lo + 1
    } else {
        lo
    };
    assert(unsigned_part(cs@.subrange(lo as int, hi as int)) =~= cs@.subrange(
        start as int,
        hi as int,
    ));
    start < hi && all_digits_in(cs, start, hi)
}

/// Reads the number that the digits in `cs[lo..hi]` denote.
///
/// Returns it if the text holds digits only and the number is at most
/// `limit`; returns `None` otherwise.
pub(crate) fn parse_digits(cs: &Vec<char>, lo: usize, hi: usize, limit: u64) -> (parsed: Option<
    u64,
>)
    requires
        lo <= hi <= cs.len(),
    ensures
        parsed is Some == (all_digits(cs@.subrange(lo as int, hi as int)) && digits_value(
            cs@.subrange(lo as int, hi as int),
        ) <= limit),
        parsed matches Some(n) ==> n == digits_value(cs@.subrange(lo as int, hi as int)),
{
    let ghost body = cs@.subrange(lo as int, hi as int);
    let mut value: u128 = 0;
    let mut i = lo;
    assert(body.take(0) =~= Seq::<char>::empty());
    while i < hi
        invariant
            lo <= i <= hi <= cs.len(),
            body == cs@.subrange(lo as int, hi as int),
            all_digits(body.take(i - lo)),
            value == digits_value(body.take(i - lo)),
            value <= limit,
        decreases hi - i,
    {
        let c = cs[i];
        if !is_digit_char(c) {
            assert(body[i - lo] == c);
            return None;
        }
        let ghost before = body.take(i - lo);
        let ghost after = body.take(i - lo + 1);
        assert(after.drop_last() =~= before);
        assert(after.last() == c);
        assert forall|j: int| 0 <= j < after.len() implies is_digit(#[trigger] after[j]) by {
            if j < before.len() {
                assert(after[j] == before[j]);
            }
        }
        value = value * 10 + (c as u32 - 48) as u128;
        if value > limit as u128 {
            proof {
                if all_digits(body) {
                    lemma_digits_value_grows(body, i - lo + 1);
                }
            }
            return None;
        }
        i += 1;
    }
    assert(body.take(hi - lo) =~= body);
    Some(value as u64)
}

} // verus!
