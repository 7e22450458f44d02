//! Text as sequences of characters, and the few functions of the standard library
//! on strings that the rest of the crate relies on.

use vstd::prelude::*;
use vstd::string::StringExecFns;
use vstd::utf8::is_ascii_chars;

verus! {

/// The characters of each string of a list.
pub open spec fn strings(list: Seq<String>) -> Seq<Seq<char>> {
    list.map_values(|s: String| s@)
}

/// The characters of each string slice of a list.
pub open spec fn texts(list: Seq<&str>) -> Seq<Seq<char>> {
    list.map_values(|s: &str| s@)
}

/// The characters of an optional string.
pub open spec fn opt_string(s: Option<String>) -> Option<Seq<char>> {
    match s {
        Some(t) => Some(t@),
        None => None,
    }
}

/// `part` stands somewhere in `whole`, in one piece.
pub open spec fn is_fragment(part: Seq<char>, whole: Seq<char>) -> bool {
    exists|i: int|
        0 <= i <= whole.len() - part.len() && #[trigger] whole.subrange(i, i + part.len()) == part
}

/// The characters with the Unicode property White_Space.
pub open spec fn is_white_space(c: char) -> bool {
    ||| '\u{9}' <= c <= '\u{d}'
    ||| c == '\u{20}'
    ||| c == '\u{85}'
    ||| c == '\u{a0}'
    ||| c == '\u{1680}'
    ||| '\u{2000}' <= c <= '\u{200a}'
    ||| c == '\u{2028}'
    ||| c == '\u{2029}'
    ||| c == '\u{202f}'
    ||| c == '\u{205f}'
    ||| c == '\u{3000}'
}

/// A text made of white space alone, the empty text among them.
pub open spec fn is_blank(s: Seq<char>) -> bool {
    forall|i: int| 0 <= i < s.len() ==> is_white_space(#[trigger] s[i])
}

/// A text that neither begins nor ends with white space.
pub open spec fn is_trim(s: Seq<char>) -> bool {
    s.len() > 0 ==> !is_white_space(s[0]) && !is_white_space(s.last())
}

/// `s` without the white space at its start.
pub open spec fn trimmed_start(s: Seq<char>) -> Seq<char>
    decreases s.len(),
{
    if s.len() > 0 && is_white_space(s[0]) {
        trimmed_start(s.skip(1))
    } else {
        s
    }
}

/// `s` without the white space at its end.
pub open spec fn trimmed_end(s: Seq<char>) -> Seq<char>
    decreases s.len(),
{
    if s.len() > 0 && is_white_space(s.last()) {
        trimmed_end(s.drop_last())
    } else {
        s
    }
}

/// `s` without the white space around it.
pub open spec fn trimmed(s: Seq<char>) -> Seq<char> {
    trimmed_end(trimmed_start(s))
}

pub open spec fn is_digit(c: char) -> bool {
    '0' <= c <= '9'
}

/// The number that a sequence of decimal digits writes.
pub open spec fn digits_value(s: Seq<char>) -> nat
    decreases s.len(),
{
    if s.len() == 0 {
        0
    } else {
        10 * digits_value(s.drop_last()) + (s.last() as nat - '0' as nat) as nat
    }
}

/// The digits of a decimal number, without the plus sign that may stand before them.
pub open spec fn unsigned_digits(s: Seq<char>) -> Seq<char> {
    if s.len() > 0 && s[0] == '+' {
        s.skip(1)
    } else {
        s
    }
}

/// The number that a text writes in decimal: an optional plus sign, then one or more
/// digits, and nothing else.
pub open spec fn decimal_value(s: Seq<char>) -> Option<nat> {
    let digits = unsigned_digits(s);
    if digits.len() > 0 && forall|i: int| 0 <= i < digits.len() ==> is_digit(#[trigger] digits[i]) {
        Some(digits_value(digits))
    } else {
        None
    }
}

/// The number that a text writes in decimal, where it is at most `max`.
pub open spec fn decimal_up_to(s: Seq<char>, max: nat) -> Option<nat> {
    match decimal_value(s) {
        Some(n) => if n <= max { Some(n) } else { None },
        None => None,
    }
}

/// The decimal digits of a number, without leading zeros.
pub open spec fn decimal_digits(n: nat) -> Seq<char>
    decreases n,
{
    if n < 10 {
        seq![('0' as nat + n) as char]
    } else {
        decimal_digits(n / 10).push(('0' as nat + n % 10) as char)
    }
}

/// What `str::to_lowercase` makes of a text: the lower case mapping of Unicode, which
/// depends on the text alone.
pub uninterp spec fn lowercase(s: Seq<char>) -> Seq<char>;

/// Whatever stands in `part` in ASCII characters stands in `whole` too.
pub open spec fn keeps_ascii(part: Seq<char>, whole: Seq<char>) -> bool {
    forall|piece: Seq<char>|
        is_ascii_chars(piece) && #[trigger] is_fragment(piece, part) ==> is_fragment(piece, whole)
}

/// `str::to_lowercase`: the result is named. Of the mapping, one thing is said: what the
/// lower case of a part of the text has in ASCII characters, the lower case of the whole has
/// too. Each character is mapped by itself, whatever stands around it; the one exception is
/// the Greek capital sigma, which has a form of its own at the end of a word, and neither of
/// its forms is ASCII.
#[verifier::external_body]
pub(crate) fn to_lowercase(s: &str) -> (r: String)
    ensures
        r@ == lowercase(s@),
        forall|i: int, j: int|
            0 <= i <= j <= s@.len() ==> keeps_ascii(lowercase(#[trigger] s@.subrange(i, j)), r@),
{
    s.to_lowercase()
}

/// `str::contains` with a string as the pattern: true exactly where the pattern is a
/// slice of the text.
#[verifier::external_body]
pub(crate) fn contains(whole: &str, part: &str) -> (r: bool)
    ensures
        r == is_fragment(part@, whole@),
{
    whole.contains(part)
}

/// `str::trim`: the slice of the text that is left without the white space at either
/// end.
#[verifier::external_body]
pub(crate) fn trim(s: &str) -> (r: &str)
    ensures
        r@ == trimmed(s@),
{
    s.trim()
}

/// `str::parse` for `u64`: an optional plus sign and decimal digits, of a number that
/// fits; every other text is an error.
#[verifier::external_body]
pub(crate) fn parse_u64(s: &str) -> (r: Option<u64>)
    ensures
        match r {
            Some(n) => decimal_up_to(s@, u64::MAX as nat) == Some(n as nat),
            None => decimal_up_to(s@, u64::MAX as nat) is None,
        },
{
    s.parse::<u64>().ok()
}

/// `ToString::to_string` on a `u64`: its decimal digits.
#[verifier::external_body]
pub(crate) fn u64_to_string(n: u64) -> (r: String)
    ensures
        r@ == decimal_digits(n as nat),
{
    n.to_string()
}

/// A list of owned strings with the texts of a list of string slices.
pub fn to_strings(list: &[&str]) -> (r: Vec<String>)
    ensures
        strings(r@) == texts(list@),
{
    let mut r: Vec<String> = Vec::new();
    for i in 0..list.len()
        invariant
            r@.len() == i,
            forall|j: int| 0 <= j < i ==> (#[trigger] r@[j])@ == list@[j]@,
    {
        r.push(list[i].to_string());
    }
    assert(strings(r@) =~= texts(list@));
    r
}

/// `before`, `middle` and `after` in one string.
pub fn join(before: &str, middle: &str, after: &str) -> (r: String)
    ensures
        r@ == before@ + middle@ + after@,
{
    let mut r: String = before.to_string();
    r.append(middle);
    r.append(after);
    r
}

/// A text is trimmed to nothing exactly where it is blank, and what trimming leaves
/// has no white space at either end.
pub proof fn law_trimmed(s: Seq<char>)
    ensures
        trimmed(s).len() == 0 <==> is_blank(s),
        is_trim(trimmed(s)),
        is_fragment(trimmed(s), s),
{
    lemma_trimmed_start(s);
    let t = trimmed_start(s);
    lemma_trimmed_end(t);
    let e = trimmed_end(t);
    let k = choose|k: int| 0 <= k <= s.len() && t == s.skip(k) && is_blank(s.take(k));
    let n = e.len() as int;
    assert(s.subrange(k, k + n) =~= e);
    if n == 0 {
        assert(t.take(0) =~= e);
        assert forall|i: int| 0 <= i < s.len() implies is_white_space(#[trigger] s[i]) by {
            if i < k {
                assert(s.take(k)[i] == s[i]);
            } else {
                assert(t.skip(0)[i - k] == s[i]);
            }
        }
    } else {
        assert(e[0] == t[0]);
        assert(s[k] == t[0]);
    }
}

proof fn lemma_trimmed_start(s: Seq<char>)
    ensures
        exists|k: int|
            0 <= k <= s.len() && trimmed_start(s) == #[trigger] s.skip(k) && is_blank(s.take(k)),
        trimmed_start(s).len() > 0 ==> !is_white_space(trimmed_start(s)[0]),
    decreases s.len(),
{
    if s.len() > 0 && is_white_space(s[0]) {
        let r = s.skip(1);
        lemma_trimmed_start(r);
        let k = choose|k: int|
            0 <= k <= r.len() && trimmed_start(r) == #[trigger] r.skip(k) && is_blank(r.take(k));
        assert(r.skip(k) =~= s.skip(k + 1));
        assert forall|i: int| 0 <= i < k + 1 implies is_white_space(#[trigger] s.take(k + 1)[i]) by {
            if i > 0 {
                assert(r.take(k)[i - 1] == s[i]);
            }
        }
    } else {
        assert(s.skip(0) =~= s);
        assert(is_blank(s.take(0)));
    }
}

proof fn lemma_trimmed_end(s: Seq<char>)
    ensures
        trimmed_end(s).len() <= s.len(),
        trimmed_end(s) == s.take(trimmed_end(s).len() as int),
        is_blank(s.skip(trimmed_end(s).len() as int)),
        trimmed_end(s).len() > 0 ==> !is_white_space(trimmed_end(s).last()),
    decreases s.len(),
{
    if s.len() > 0 && is_white_space(s.last()) {
        let r = s.drop_last();
        lemma_trimmed_end(r);
        let n = trimmed_end(r).len() as int;
        assert(r.take(n) =~= s.take(n));
        assert forall|i: int| 0 <= i < s.len() - n implies is_white_space(
            #[trigger] s.skip(n)[i],
        ) by {
            if i < s.len() - n - 1 {
                assert(r.skip(n)[i] == s.skip(n)[i]);
            }
        }
    } else {
        assert(s.take(s.len() as int) =~= s);
    }
}

/// The views of lists and options of strings leave nothing out and put nothing in.
pub proof fn law_lists_are_seen_as_they_are(list: Seq<String>, slices: Seq<&str>, s: String)
    ensures
        strings(list).len() == list.len(),
        forall|i: int| 0 <= i < list.len() ==> #[trigger] strings(list)[i] == list[i]@,
        texts(slices).len() == slices.len(),
        forall|i: int| 0 <= i < slices.len() ==> #[trigger] texts(slices)[i] == slices[i]@,
        opt_string(Some(s)) == Some(s@),
        opt_string(None) is None,
{
}

/// A text stands in another exactly where the other is that text with something around it.
pub proof fn law_fragment_has_text_around(part: Seq<char>, whole: Seq<char>)
    ensures
        is_fragment(part, whole) <==> exists|before: Seq<char>, after: Seq<char>|
            whole == #[trigger] (before + part + after),
{
    if is_fragment(part, whole) {
        let i = choose|i: int|
            0 <= i <= whole.len() - part.len() && #[trigger] whole.subrange(i, i + part.len())
                == part;
        let before = whole.take(i);
        let after = whole.skip(i + part.len());
        assert(whole =~= before + part + after);
    }
    if exists|before: Seq<char>, after: Seq<char>| whole == #[trigger] (before + part + after) {
        let (before, after) = choose|before: Seq<char>, after: Seq<char>|
            whole == #[trigger] (before + part + after);
        let i = before.len() as int;
        assert(whole.subrange(i, i + part.len()) =~= part);
    }
}

/// What trimming takes away is white space before and after, and nothing else.
pub proof fn law_trimming_takes_white_space_only(s: Seq<char>)
    ensures
        exists|before: Seq<char>, after: Seq<char>|
            {
                &&& s == #[trigger] (before + trimmed(s) + after)
                &&& is_blank(before)
                &&& is_blank(after)
            },
{
    lemma_trimmed_start(s);
    let t = trimmed_start(s);
    lemma_trimmed_end(t);
    let k = choose|k: int|
        0 <= k <= s.len() && t == #[trigger] s.skip(k) && is_blank(s.take(k));
    let before = s.take(k);
    let after = t.skip(trimmed_end(t).len() as int);
    assert(s =~= before + trimmed(s) + after);
    assert(is_blank(before) && is_blank(after));
}

/// How decimal numbers are written: a digit behind a number makes it ten times as large and
/// adds the digit; a plus sign before it changes nothing; whatever holds anything else, or no
/// digit, is no number; and a bound leaves out the numbers above it and no others.
pub proof fn law_decimal_numbers(s: Seq<char>, c: char, max: nat)
    ensures
        '0' <= c <= '9' ==> decimal_value(seq![c]) == Some((c as nat - '0' as nat) as nat),
        '0' <= c <= '9' ==> (decimal_value(s) matches Some(n) ==> decimal_value(s.push(c)) == Some(
            (10 * n + (c as nat - '0' as nat)) as nat,
        )),
        s.len() > 0 && s[0] != '+' ==> decimal_value(seq!['+'] + s) == decimal_value(s),
        decimal_value(Seq::empty()) is None,
        decimal_value(seq!['+']) is None,
        !('0' <= c <= '9') && c != '+' && s.contains(c) ==> decimal_value(s) is None,
        !('0' <= c <= '9') ==> decimal_value(s.push(c)) is None,
        decimal_up_to(s, max) is Some <==> (decimal_value(s) matches Some(n) && n <= max),
        decimal_up_to(s, max) is Some ==> decimal_up_to(s, max) == decimal_value(s),
{
    let one = seq![c];
    assert(one.drop_last() =~= Seq::empty());
    reveal_with_fuel(digits_value, 2);
    let longer = s.push(c);
    assert(longer.last() == c);
    let digits = unsigned_digits(s);
    let more = unsigned_digits(longer);
    if '0' <= c <= '9' {
        assert(one[0] != '+');
        assert(forall|i: int| 0 <= i < one.len() ==> is_digit(#[trigger] one[i]));
        if decimal_value(s) is Some {
            assert(more =~= digits.push(c));
            assert(more.drop_last() =~= digits);
            assert(forall|i: int| 0 <= i < more.len() ==> is_digit(#[trigger] more[i]));
        }
    } else {
        if longer[0] == '+' && longer.len() == 1 {
            assert(more.len() == 0);
        } else {
            assert(more.last() == c);
            assert(!is_digit(more[more.len() - 1]));
        }
        if c != '+' && s.contains(c) {
            let k = choose|k: int| 0 <= k < s.len() && s[k] == c;
            if s[0] == '+' {
                assert(digits[k - 1] == c);
            } else {
                assert(digits[k] == c);
            }
        }
    }
    if s.len() > 0 && s[0] != '+' {
        let signed = seq!['+'] + s;
        assert(signed[0] == '+');
        assert(unsigned_digits(signed) =~= s);
    }
    assert(unsigned_digits(seq!['+']) =~= Seq::empty());
}

/// A number reads back from its decimal digits.
pub proof fn law_numbers_read_back(n: nat)
    ensures
        decimal_value(decimal_digits(n)) == Some(n),
    decreases n,
{
    if n < 10 {
        law_decimal_numbers(Seq::empty(), ('0' as nat + n) as char, 0);
    } else {
        law_numbers_read_back(n / 10);
        law_decimal_numbers(decimal_digits(n / 10), ('0' as nat + n % 10) as char, 0);
    }
}

} // verus!
