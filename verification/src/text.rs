//! Text building blocks: decimal rendering of integers and whitespace trimming.

use vstd::prelude::*;

verus! {

pub const DIGITS: [char; 10] = ['0', '1', '2', '3', '4', '5', '6', '7', '8', '9'];

/// The character of a decimal digit `d < 10`.
pub open spec fn digit(d: nat) -> char {
    seq!['0', '1', '2', '3', '4', '5', '6', '7', '8', '9'][d as int]
}

/// Decimal rendering of a natural number, most significant digit first, with
/// no leading zeros (zero itself renders as `"0"`).
pub open spec fn decimal(n: nat) -> Seq<char>
    decreases n,
{
    if n < 10 {
        seq![digit(n)]
    } else {
        decimal(n / 10).push(digit(n % 10))
    }
}

/// Decimal rendering of an integer: a minus sign before the magnitude when negative.
pub open spec fn signed_decimal(i: int) -> Seq<char> {
    if i < 0 {
        seq!['-'] + decimal((-i) as nat)
    } else {
        decimal(i as nat)
    }
}

/// `String::push`: appends the character `c` to `s`.
#[verifier::external_body]
pub(crate) fn push_char(s: &mut String, c: char)
    ensures
        final(s)@ == old(s)@.push(c),
{
    s.push(c);
}

/// Appends the decimal rendering of `n` to `s`.
pub fn push_decimal(s: &mut String, n: u64)
    ensures
        final(s)@ == old(s)@ + decimal(n as nat),
    decreases n,
{
    let ghost start = s@;
    if n >= 10 {
        push_decimal(s, n / 10);
    }
    let d = n % 10;
    assert(DIGITS@[d as int] == digit(d as nat));
    push_char(s, DIGITS[d as usize]);
    assert(s@ =~= start + decimal(n as nat));
}

/// Appends the decimal rendering of `i` (with a leading `-` when negative) to `s`.
pub fn push_signed_decimal(s: &mut String, i: i64)
    ensures
        final(s)@ == old(s)@ + signed_decimal(i as int),
{
    let ghost start = s@;
    if i < 0 {
        push_char(s, '-');
        let magnitude: u64 = if i == i64::MIN {
            9_223_372_036_854_775_808u64
        } else {
            (-i) as u64
        };
        push_decimal(s, magnitude);
        assert(s@ =~= start + signed_decimal(i as int));
    } else {
        push_decimal(s, i as u64);
    }
}

/// Unicode `White_Space` characters, the ones `char::is_whitespace` accepts:
/// U+0009..U+000D, U+0020, U+0085, U+00A0, U+1680, U+2000..U+200A, U+2028,
/// U+2029, U+202F, U+205F and U+3000.
pub open spec fn white_space(c: char) -> bool {
    ||| '\u{0009}' <= c <= '\u{000D}'
    ||| c == ' '
    ||| c == '\u{0085}'
    ||| c == '\u{00A0}'
    ||| c == '\u{1680}'
    ||| '\u{2000}' <= c <= '\u{200A}'
    ||| c == '\u{2028}'
    ||| c == '\u{2029}'
    ||| c == '\u{202F}'
    ||| c == '\u{205F}'
    ||| c == '\u{3000}'
}

pub fn is_white_space(c: char) -> (b: bool)
    ensures
        b == white_space(c),
{
    ('\u{0009}' <= c && c <= '\u{000D}') || c == ' ' || c == '\u{0085}' || c == '\u{00A0}'
        || c == '\u{1680}' || ('\u{2000}' <= c && c <= '\u{200A}') || c == '\u{2028}'
        || c == '\u{2029}' || c == '\u{202F}' || c == '\u{205F}' || c == '\u{3000}'
}

/// `s` without its leading white space.
pub open spec fn trim_start(s: Seq<char>) -> Seq<char>
    decreases s.len(),
{
    if s.len() > 0 && white_space(s[0]) {
        trim_start(s.drop_first())
    } else {
        s
    }
}

/// `s` without its trailing white space.
pub open spec fn trim_end(s: Seq<char>) -> Seq<char>
    decreases s.len(),
{
    if s.len() > 0 && white_space(s.last()) {
        trim_end(s.drop_last())
    } else {
        s
    }
}

/// `s` without leading and trailing white space.
pub open spec fn trim(s: Seq<char>) -> Seq<char> {
    trim_end(trim_start(s))
}

/// What trimming leaves, when anything, starts and ends with a character that
/// is not white space.
pub proof fn trimmed_ends_are_not_white_space(s: Seq<char>)
    ensures
        trim(s).len() > 0 ==> !white_space(trim(s)[0]) && !white_space(trim(s).last()),
{
    trim_start_shape(s);
    trim_end_shape(trim_start(s));
}

proof fn trim_start_shape(s: Seq<char>)
    ensures
        trim_start(s).len() > 0 ==> !white_space(trim_start(s)[0]),
    decreases s.len(),
{
    if s.len() > 0 && white_space(s[0]) {
        trim_start_shape(s.drop_first());
    }
}

proof fn trim_end_shape(s: Seq<char>)
    ensures
        trim_end(s).len() <= s.len(),
        trim_end(s) == s.take(trim_end(s).len() as int),
        trim_end(s).len() > 0 ==> !white_space(trim_end(s).last()),
    decreases s.len(),
{
    if s.len() > 0 && white_space(s.last()) {
        trim_end_shape(s.drop_last());
        assert(s.drop_last().take(trim_end(s).len() as int) =~= s.take(trim_end(s).len() as int));
    } else {
        assert(s.take(s.len() as int) =~= s);
    }
}

/// Trimming cuts white space off both ends and nothing else: what is left is a
/// contiguous part of `s`, everything cut off is white space, and what is left
/// neither starts nor ends with white space.
pub proof fn trim_cuts_only_white_space(s: Seq<char>)
    ensures
        exists|i: int, j: int|
            0 <= i <= j <= s.len() && trim(s) == s.subrange(i, j) && (forall|k: int|
                0 <= k < i ==> white_space(#[trigger] s[k])) && (forall|k: int|
                j <= k < s.len() ==> white_space(#[trigger] s[k])),
        trim(s).len() > 0 ==> !white_space(trim(s)[0]) && !white_space(trim(s).last()),
{
    let i = trim_start_cut(s);
    let t = trim_start(s);
    trim_end_shape(t);
    let j = i + trim(s).len();
    trim_end_cut(t);
    assert(trim(s) =~= s.subrange(i, j));
    assert forall|k: int| j <= k < s.len() implies white_space(#[trigger] s[k]) by {
        assert(s[k] == t[k - i]);
    }
    trimmed_ends_are_not_white_space(s);
}

proof fn trim_start_cut(s: Seq<char>) -> (i: int)
    ensures
        0 <= i <= s.len(),
        trim_start(s) == s.subrange(i, s.len() as int),
        forall|k: int| 0 <= k < i ==> white_space(#[trigger] s[k]),
    decreases s.len(),
{
    if s.len() > 0 && white_space(s[0]) {
        let i = trim_start_cut(s.drop_first());
        assert forall|k: int| 0 <= k < i + 1 implies white_space(#[trigger] s[k]) by {
            if k > 0 {
                assert(s[k] == s.drop_first()[k - 1]);
            }
        }
        assert(s.drop_first().subrange(i, s.len() - 1) =~= s.subrange(i + 1, s.len() as int));
        i + 1
    } else {
        assert(s.subrange(0, s.len() as int) =~= s);
        0
    }
}

proof fn trim_end_cut(s: Seq<char>)
    ensures
        forall|k: int| trim_end(s).len() <= k < s.len() ==> white_space(#[trigger] s[k]),
    decreases s.len(),
{
    if s.len() > 0 && white_space(s.last()) {
        trim_end_cut(s.drop_last());
        trim_end_shape(s.drop_last());
        assert forall|k: int| trim_end(s).len() <= k < s.len() implies white_space(#[trigger] s[k]) by {
            if k < s.len() - 1 {
                assert(s[k] == s.drop_last()[k]);
            }
        }
    }
}

/// The number written by a string of decimal digits.
pub open spec fn digits_value(s: Seq<char>) -> int
    decreases s.len(),
{
    if s.len() == 0 {
        0
    } else {
        digits_value(s.drop_last()) * 10 + (s.last() as int - '0' as int)
    }
}

proof fn digit_value(d: nat)
    requires
        d < 10,
    ensures
        digit(d) as int - '0' as int == d,
        '0' <= digit(d) <= '9',
{
    let ds = seq!['0', '1', '2', '3', '4', '5', '6', '7', '8', '9'];
    assert(ds[0] == '0' && ds[1] == '1' && ds[2] == '2' && ds[3] == '3' && ds[4] == '4');
    assert(ds[5] == '5' && ds[6] == '6' && ds[7] == '7' && ds[8] == '8' && ds[9] == '9');
}

/// The decimal rendering of `n` is made of digits, writes `n`, and has no
/// leading zero (unless `n` is zero).
pub proof fn decimal_writes_the_number(n: nat)
    ensures
        decimal(n).len() >= 1,
        forall|k: int| 0 <= k < decimal(n).len() ==> '0' <= #[trigger] decimal(n)[k] <= '9',
        digits_value(decimal(n)) == n,
        decimal(n)[0] == '0' ==> n == 0,
    decreases n,
{
    digit_value(n % 10);
    if n >= 10 {
        decimal_writes_the_number(n / 10);
        let d = decimal(n);
        assert(d.drop_last() =~= decimal(n / 10));
        assert forall|k: int| 0 <= k < d.len() implies '0' <= #[trigger] d[k] <= '9' by {
            if k < d.len() - 1 {
                assert(d[k] == decimal(n / 10)[k]);
            }
        }
        assert(d[0] == decimal(n / 10)[0]);
        assert(d.last() == digit(n % 10));
        assert(digits_value(d) == digits_value(decimal(n / 10)) * 10 + (digit(n % 10) as int - '0' as int));
        assert(n == (n / 10) * 10 + n % 10);
    } else {
        assert(decimal(n).drop_last() =~= Seq::<char>::empty());
        assert(n % 10 == n);
        assert(digits_value(decimal(n)) == digits_value(Seq::<char>::empty()) * 10 + (digit(n) as int - '0' as int));
    }
}

/// The characters of `s`, in order.
pub fn chars_of(s: &str) -> (v: Vec<char>)
    ensures
        v@ == s@,
{
    broadcast use vstd::string::group_string_axioms;
    let mut v: Vec<char> = Vec::new();
    for c in it: s.chars()
        invariant
            it.seq() == s@,
            v@ == it.seq().take(it.index()),
    {
        v.push(c);
        assert(v@ =~= it.seq().take(it.index() + 1));
    }
    assert(v@ =~= s@);
    v
}

/// The trimmed text of `chars[lo..hi]`.
pub fn trimmed_slice(chars: &Vec<char>, lo: usize, hi: usize) -> (text: String)
    requires
        lo <= hi <= chars@.len(),
    ensures
        text@ == trim(chars@.subrange(lo as int, hi as int)),
{
    let ghost whole = chars@.subrange(lo as int, hi as int);
    let mut a = lo;
    while a < hi && is_white_space(chars[a])
        invariant
            lo <= a <= hi <= chars@.len(),
            trim_start(whole) == trim_start(chars@.subrange(a as int, hi as int)),
        decreases hi - a,
    {
        let ghost rest = chars@.subrange(a as int, hi as int);
        assert(rest.drop_first() =~= chars@.subrange(a + 1, hi as int));
        a = a + 1;
    }
    let ghost started = chars@.subrange(a as int, hi as int);
    assert(trim_start(started) == started);
    let mut b = hi;
    while b > a && is_white_space(chars[b - 1])
        invariant
            lo <= a <= b <= hi <= chars@.len(),
            trim_end(started) == trim_end(chars@.subrange(a as int, b as int)),
        decreases b - a,
    {
        let ghost rest = chars@.subrange(a as int, b as int);
        assert(rest.drop_last() =~= chars@.subrange(a as int, b - 1));
        b = b - 1;
    }
    let mut text = String::new();
    let mut k = a;
    while k < b
        invariant
            a <= k <= b <= chars@.len(),
            text@ == chars@.subrange(a as int, k as int),
        decreases b - k,
    {
        push_char(&mut text, chars[k]);
        assert(text@ =~= chars@.subrange(a as int, k + 1));
        k = k + 1;
    }
    assert(trim_end(chars@.subrange(a as int, b as int)) == chars@.subrange(a as int, b as int));
    text
}

/// `s` with leading and trailing white space removed.
pub fn trim_text(s: &str) -> (text: String)
    ensures
        text@ == trim(s@),
{
    let chars = chars_of(s);
    assert(chars@.subrange(0, chars@.len() as int) =~= s@);
    trimmed_slice(&chars, 0, chars.len())
}

} // verus!
