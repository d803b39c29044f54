//! Small verified operations on text.

use vstd::prelude::*;

verus! {

/// Tells whether two string slices hold the same characters.
pub fn str_equal(a: &str, b: &str) -> (r: bool)
    ensures
        r == (a@ == b@),
{
    let x = a.to_owned();
    let y = b.to_owned();
    x == y
}

/// The characters of a string slice, in order.
pub fn chars_of(s: &str) -> (v: Vec<char>)
    ensures
        v@ == s@,
{
    let mut v: Vec<char> = Vec::new();
    for c in it: s.chars()
        invariant
            it.seq() == s@,
            v@ =~= s@.take(it.index() as int),
    {
        v.push(c);
    }
    assert(s@.take(s@.len() as int) =~= s@);
    v
}

/// The character of a decimal digit.
pub open spec fn digit_char(d: nat) -> char {
    (48 + d) as u8 as char
}

/// The decimal numeral of a number, without leading zeros.
pub open spec fn decimal(n: nat) -> Seq<char>
    decreases n,
{
    if n < 10 {
        seq![digit_char(n)]
    } else {
        decimal(n / 10).push(digit_char(n % 10))
    }
}

/// The decimal numeral of a number, with zeros in front where it has fewer
/// than three digits.
pub open spec fn decimal_padded3(n: nat) -> Seq<char> {
    if n < 10 {
        seq!['0', '0'] + decimal(n)
    } else if n < 100 {
        seq!['0'] + decimal(n)
    } else {
        decimal(n)
    }
}

/// Appends the decimal numeral of `n` to `out`.
pub fn push_decimal(n: u64, out: &mut Vec<char>)
    ensures
        final(out)@ == old(out)@ + decimal(n as nat),
    decreases n,
{
    if n >= 10 {
        push_decimal(n / 10, out);
    }
    let d: u8 = (n % 10) as u8;
    out.push((48 + d) as char);
    proof {
        if n >= 10 {
            assert(final(out)@ =~= old(out)@ + decimal(n as nat));
        } else {
            assert(final(out)@ =~= old(out)@ + decimal(n as nat));
        }
    }
}

/// The decimal numeral of `n`.
pub fn decimal_string(n: u64) -> (s: String)
    ensures
        s@ == decimal(n as nat),
{
    let mut out: Vec<char> = Vec::new();
    push_decimal(n, &mut out);
    assert(out@ =~= decimal(n as nat));
    string_of(&out)
}

/// The character is white space: the characters that Unicode gives the
/// property White_Space.
pub open spec fn is_whitespace(c: char) -> bool {
    let u = c as u32;
    ||| u == 0x20
    ||| 0x09 <= u <= 0x0d
    ||| u == 0x85
    ||| u == 0xa0
    ||| u == 0x1680
    ||| 0x2000 <= u <= 0x200a
    ||| u == 0x2028
    ||| u == 0x2029
    ||| u == 0x202f
    ||| u == 0x205f
    ||| u == 0x3000
}

/// Tells whether the character is white space.
pub fn char_is_whitespace(c: char) -> (b: bool)
    ensures
        b == is_whitespace(c),
{
    let u = c as u32;
    u == 0x20 || (0x09 <= u && u <= 0x0d) || u == 0x85 || u == 0xa0 || u == 0x1680 || (0x2000 <= u
        && u <= 0x200a) || u == 0x2028 || u == 0x2029 || u == 0x202f || u == 0x205f || u
        == 0x3000
}

/// The number of characters before the first `stop`, or the length where
/// there is none.
pub open spec fn length_before(s: Seq<char>, stop: char) -> nat
    decreases s.len(),
{
    if s.len() == 0 || s[0] == stop {
        0
    } else {
        1 + length_before(s.drop_first(), stop)
    }
}

/// The number of white-space characters at the start.
pub open spec fn leading_whitespace(s: Seq<char>) -> nat
    decreases s.len(),
{
    if s.len() > 0 && is_whitespace(s[0]) {
        1 + leading_whitespace(s.drop_first())
    } else {
        0
    }
}

/// The number of white-space characters at the end.
pub open spec fn trailing_whitespace(s: Seq<char>) -> nat
    decreases s.len(),
{
    if s.len() > 0 && is_whitespace(s.last()) {
        1 + trailing_whitespace(s.drop_last())
    } else {
        0
    }
}

/// The text without the white space at its start and at its end.
pub open spec fn trimmed(s: Seq<char>) -> Seq<char> {
    let rest = s.skip(leading_whitespace(s) as int);
    rest.take(rest.len() - trailing_whitespace(rest))
}

/// The character is a decimal digit.
pub open spec fn is_digit(c: char) -> bool {
    48 <= c as u32 <= 57
}

/// The number that a run of decimal digits stands for.
pub open spec fn digits_value(s: Seq<char>) -> nat
    decreases s.len(),
{
    if s.len() == 0 {
        0
    } else {
        (digits_value(s.drop_last()) * 10 + (s.last() as u32 - 48)) as nat
    }
}

/// The text is a numeral as the parsing of unsigned integers takes it: one
/// or more decimal digits, with at most a plus sign in front.
pub open spec fn is_numeral(s: Seq<char>) -> bool {
    let digits = numeral_digits(s);
    digits.len() > 0 && forall|i: int| 0 <= i < digits.len() ==> is_digit(#[trigger] digits[i])
}

/// The digits of a numeral: the text without a plus sign in front.
pub open spec fn numeral_digits(s: Seq<char>) -> Seq<char> {
    if s.len() > 0 && s[0] == '+' {
        s.drop_first()
    } else {
        s
    }
}

/// The number that the text stands for, where it is a numeral and the
/// number fits in `usize`.
pub open spec fn parsed_index(s: Seq<char>) -> Option<usize> {
    if is_numeral(s) && digits_value(numeral_digits(s)) <= usize::MAX {
        Some(digits_value(numeral_digits(s)) as usize)
    } else {
        None
    }
}

/// The value of a run of digits is at least that of each of its prefixes.
proof fn lemma_digits_value_grows(s: Seq<char>, k: int)
    requires
        0 <= k <= s.len(),
        forall|i: int| 0 <= i < s.len() ==> is_digit(#[trigger] s[i]),
    ensures
        digits_value(s.take(k)) <= digits_value(s),
    decreases s.len(),
{
    if k == s.len() {
        assert(s.take(k) =~= s);
    } else {
        lemma_digits_value_grows(s.drop_last(), k);
        assert(s.drop_last().take(k) =~= s.take(k));
    }
}

/// Reads the number that `text[from..to]` stands for.
pub fn parse_index(text: &Vec<char>, from: usize, to: usize) -> (r: Option<usize>)
    requires
        from <= to <= text.len(),
    ensures
        r == parsed_index(text@.subrange(from as int, to as int)),
{
    let ghost s = text@.subrange(from as int, to as int);
    let mut i: usize = from;
    if i < to && text[i] == '+' {
        i = i + 1;
    }
    let start = i;
    let ghost digits = numeral_digits(s);
    proof {
        assert(digits =~= text@.subrange(start as int, to as int));
    }
    if start == to {
        return None;
    }
    let mut value: usize = 0;
    while i < to
        invariant
            from <= start <= i <= to <= text.len(),
            s == text@.subrange(from as int, to as int),
            digits == numeral_digits(s),
            digits == text@.subrange(start as int, to as int),
            forall|j: int| 0 <= j < i - start ==> is_digit(#[trigger] digits[j]),
            value == digits_value(digits.take(i - start)),
        decreases to - i,
    {
        let c = text[i];
        let u = c as u32;
        assert(digits[i - start] == c);
        if u < 48 || u > 57 {
            return None;
        }
        let d: usize = (u - 48) as usize;
        proof {
            assert(digits.take(i - start + 1).drop_last() =~= digits.take(i - start));
            assert(digits.take(i - start + 1).last() == c);
        }
        let next = match value.checked_mul(10) {
            Some(scaled) => scaled.checked_add(d),
            None => None,
        };
        match next {
            Some(v) => {
                value = v;
            },
            None => {
                proof {
                    if is_numeral(s) {
                        lemma_digits_value_grows(digits, i - start + 1);
                    }
                }
                return None;
            },
        }
        i = i + 1;
    }
    proof {
        assert(digits.take(to - start) =~= digits);
    }
    Some(value)
}

/// The decimal numeral of a number is made of digits, and reads back as
/// the number.
pub proof fn lemma_decimal_reads_back(n: nat)
    ensures
        decimal(n).len() >= 1,
        forall|k: int| 0 <= k < decimal(n).len() ==> is_digit(#[trigger] decimal(n)[k]),
        digits_value(decimal(n)) == n,
    decreases n,
{
    let d = decimal(n);
    if n < 10 {
        assert(d =~= seq![digit_char(n)]);
        assert(d.drop_last().len() == 0);
        assert(d.last() == digit_char(n));
        assert(digit_char(n) as u32 == 48 + n);
        assert(digits_value(d.drop_last()) == 0);
        assert(digits_value(d) == n);
    } else {
        lemma_decimal_reads_back(n / 10);
        let head = decimal(n / 10);
        assert(d == head.push(digit_char(n % 10)));
        assert(d.drop_last() =~= head);
        assert(d.last() == digit_char(n % 10));
        assert(digit_char(n % 10) as u32 == 48 + n % 10);
        assert(digits_value(d) == digits_value(head) * 10 + n % 10);
        assert forall|k: int| 0 <= k < d.len() implies is_digit(#[trigger] d[k]) by {
            if k < head.len() {
                assert(d[k] == head[k]);
            }
        }
    }
}

/// Where a text holds no `stop` and is followed by one, the characters
/// before the first `stop` are the text.
pub proof fn lemma_length_before_prefix(head: Seq<char>, tail: Seq<char>, stop: char)
    requires
        forall|k: int| 0 <= k < head.len() ==> #[trigger] head[k] != stop,
        tail.len() > 0,
        tail[0] == stop,
    ensures
        length_before(head + tail, stop) == head.len(),
    decreases head.len(),
{
    let all = head + tail;
    if head.len() == 0 {
        assert(all =~= tail);
    } else {
        assert(all[0] == head[0]);
        assert(all.drop_first() =~= head.drop_first() + tail);
        assert forall|k: int| 0 <= k < head.drop_first().len() implies #[trigger] head.drop_first()[k]
            != stop by {
            assert(head.drop_first()[k] == head[k + 1]);
        }
        lemma_length_before_prefix(head.drop_first(), tail, stop);
    }
}

/// A run of digits is a numeral with no white space around it: it reads
/// as its value where the value fits.
pub proof fn lemma_digits_parse(digits: Seq<char>)
    requires
        digits.len() >= 1,
        forall|k: int| 0 <= k < digits.len() ==> is_digit(#[trigger] digits[k]),
        digits_value(digits) <= usize::MAX,
    ensures
        trimmed(digits) == digits,
        parsed_index(trimmed(digits)) == Some(digits_value(digits) as usize),
{
    assert(is_digit(digits[0]));
    assert(is_digit(digits.last()));
    assert(!is_whitespace(digits[0]));
    assert(!is_whitespace(digits.last()));
    assert(leading_whitespace(digits) == 0);
    assert(digits.skip(0) =~= digits);
    assert(trailing_whitespace(digits) == 0);
    assert(digits.take(digits.len() as int) =~= digits);
    assert(trimmed(digits) =~= digits);
    assert(digits[0] != '+');
    assert(numeral_digits(digits) == digits);
}

/// `pattern` stands somewhere in `text`.
pub open spec fn has_substring(text: Seq<char>, pattern: Seq<char>) -> bool {
    exists|i: int|
        0 <= i <= text.len() - pattern.len() && #[trigger] text.subrange(i, i + pattern.len())
            == pattern
}

/// Tells whether `pattern` stands at place `at` of `text`.
fn matches_at(text: &Vec<char>, pattern: &Vec<char>, at: usize) -> (b: bool)
    requires
        at + pattern.len() <= text.len(),
    ensures
        b == (text@.subrange(at as int, at + pattern.len()) == pattern@),
{
    let mut j: usize = 0;
    while j < pattern.len()
        invariant
            j <= pattern.len(),
            at + pattern.len() <= text.len(),
            text@.subrange(at as int, at + j) =~= pattern@.take(j as int),
        decreases pattern.len() - j,
    {
        if text[at + j] != pattern[j] {
            proof {
                let window = text@.subrange(at as int, at + pattern.len());
                assert(window[j as int] != pattern@[j as int]);
            }
            return false;
        }
        j = j + 1;
    }
    proof {
        assert(pattern@.take(pattern.len() as int) =~= pattern@);
    }
    true
}

/// Tells whether `pattern` stands somewhere in `text`.
pub fn contains(text: &str, pattern: &str) -> (b: bool)
    ensures
        b == has_substring(text@, pattern@),
{
    let t = chars_of(text);
    let p = chars_of(pattern);
    if p.len() > t.len() {
        return false;
    }
    if p.len() == 0 {
        assert(text@.subrange(0int, 0int + pattern@.len()) =~= pattern@);
        return true;
    }
    let last = t.len() - p.len();
    let mut i: usize = 0;
    while i <= last
        invariant
            i <= last + 1,
            last == t.len() - p.len(),
            0 < p.len() <= t.len(),
            t@ == text@,
            p@ == pattern@,
            forall|k: int| 0 <= k < i ==> #[trigger] t@.subrange(k, k + p.len()) != p@,
        decreases last + 1 - i,
    {
        if matches_at(&t, &p, i) {
            return true;
        }
        i = i + 1;
    }
    false
}

/// The string that holds the given characters: `String::from_iter`, which
/// keeps each character and their order.
#[verifier::external_body]
pub(crate) fn string_of(chars: &Vec<char>) -> (s: String)
    ensures
        s@ == chars@,
{
    String::from_iter(chars)
}

} // verus!
