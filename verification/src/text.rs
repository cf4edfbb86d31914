//! Text helpers shared by the formatters and validators.

use vstd::prelude::*;

verus! {

/// Whether a character beyond ASCII has the Unicode `White_Space`
/// property, as `char::is_whitespace` reports it.
pub uninterp spec fn is_wide_whitespace(c: char) -> bool;

/// Whether `c` is whitespace: among the ASCII characters the space and
/// the five from tab to carriage return, beyond them what Unicode calls
/// `White_Space`.
pub open spec fn is_whitespace(c: char) -> bool {
    if c <= '\x7f' {
        c == ' ' || ('\x09' <= c && c <= '\x0d')
    } else {
        is_wide_whitespace(c)
    }
}

/// What `str::to_lowercase` returns for the text `s`.
pub uninterp spec fn lowercase(s: Seq<char>) -> Seq<char>;

/// The texts of a list of strings.
pub open spec fn texts(strings: Seq<String>) -> Seq<Seq<char>> {
    strings.map_values(|s: String| s@)
}

/// `s` without its leading whitespace.
pub open spec fn trim_start(s: Seq<char>) -> Seq<char>
    decreases s.len(),
{
    if s.len() > 0 && is_whitespace(s[0]) {
        trim_start(s.subrange(1, s.len() as int))
    } else {
        s
    }
}

/// `s` without its trailing whitespace.
pub open spec fn trim_end(s: Seq<char>) -> Seq<char>
    decreases s.len(),
{
    if s.len() > 0 && is_whitespace(s.last()) {
        trim_end(s.drop_last())
    } else {
        s
    }
}

/// `s` without leading and trailing whitespace.
pub open spec fn trimmed(s: Seq<char>) -> Seq<char> {
    trim_end(trim_start(s))
}

/// `char::is_whitespace`: whether `c` has the Unicode `White_Space`
/// property. Of the ASCII characters those are the space and the five
/// from tab to carriage return; of the others the answer is named.
#[verifier::external_body]
pub(crate) fn is_space(c: char) -> (r: bool)
    ensures
        c <= '\x7f' ==> r == (c == ' ' || ('\x09' <= c && c <= '\x0d')),
        c > '\x7f' ==> r == is_wide_whitespace(c),
{
    c.is_whitespace()
}

/// Leading whitespace is what `trim_start` removes.
pub proof fn lemma_trim_start(s: Seq<char>, a: int)
    requires
        0 <= a <= s.len(),
        forall|j: int| 0 <= j < a ==> is_whitespace(s[j]),
        a < s.len() ==> !is_whitespace(s[a]),
    ensures
        trim_start(s) == s.subrange(a, s.len() as int),
    decreases a,
{
    if a != 0 {
        let rest = s.subrange(1, s.len() as int);
        lemma_trim_start(rest, a - 1);
    }
}

/// Trailing whitespace is what `trim_end` removes.
pub proof fn lemma_trim_end(s: Seq<char>, b: int)
    requires
        0 <= b <= s.len(),
        forall|j: int| b <= j < s.len() ==> is_whitespace(s[j]),
        0 < b ==> !is_whitespace(s[b - 1]),
    ensures
        trim_end(s) == s.subrange(0, b),
    decreases s.len() - b,
{
    if b != s.len() {
        let rest = s.drop_last();
        lemma_trim_end(rest, b);
    }
}

/// The slice of `s` without its leading and trailing whitespace.
pub fn trim(s: &str) -> (t: &str)
    ensures
        t@ == trimmed(s@),
{
    let n: usize = s.unicode_len();
    let mut start: usize = 0;
    let mut end: usize = 0;
    let mut i: usize = 0;
    for c in it: s.chars()
        invariant
            n == s@.len(),
            it.seq() == s@,
            i == it.index(),
            i <= n,
            start <= end <= i,
            end == 0 ==> start == 0 && forall|j: int| 0 <= j < i ==> is_whitespace(s@[j]),
            end > 0 ==> !is_whitespace(s@[start as int]) && !is_whitespace(s@[end - 1]),
            end > 0 ==> forall|j: int| 0 <= j < start ==> is_whitespace(s@[j]),
            forall|j: int| end <= j < i ==> is_whitespace(s@[j]),
    {
        if !is_space(c) {
            if end == 0 {
                start = i;
            }
            end = i + 1;
        }
        i = i + 1;
    }
    proof {
        if end == 0 {
            lemma_trim_start(s@, n as int);
        } else {
            lemma_trim_start(s@, start as int);
            let rest = s@.subrange(start as int, n as int);
            lemma_trim_end(rest, end - start);
        }
    }
    s.substring_char(start, end)
}

/// Whether `prefix` is a prefix of `s`.
pub fn starts_with(s: &str, prefix: &str) -> (r: bool)
    ensures
        r == prefix@.is_prefix_of(s@),
{
    let n: usize = prefix.unicode_len();
    if s.unicode_len() < n {
        return false;
    }
    let mut i: usize = 0;
    while i < n
        invariant
            n == prefix@.len(),
            n <= s@.len(),
            i <= n,
            forall|j: int| 0 <= j < i ==> s@[j] == prefix@[j],
        decreases n - i,
    {
        if s.get_char(i) != prefix.get_char(i) {
            return false;
        }
        i = i + 1;
    }
    true
}

/// Whether two texts hold the same characters.
pub fn text_eq(a: &str, b: &str) -> (r: bool)
    ensures
        r == (a@ == b@),
{
    let x = String::from_str(a);
    let y = String::from_str(b);
    x == y
}

/// `str::to_lowercase`: the Unicode lowercase form of `s`.
#[verifier::external_body]
pub(crate) fn to_lowercase(s: &str) -> (r: String)
    ensures
        r@ == lowercase(s@),
{
    s.to_lowercase()
}

/// `String::push`: appends one character.
pub assume_specification[ String::push ](s: &mut String, c: char)
    ensures
        final(s)@ == old(s)@.push(c),
;

/// The character of a decimal digit.
pub open spec fn digit_char(d: nat) -> char
    recommends
        d < 10,
{
    (48 + d) as char
}

/// The decimal numeral of `n`, without leading zeros.
pub open spec fn decimal(n: nat) -> Seq<char>
    decreases n,
{
    if n < 10 {
        seq![digit_char(n)]
    } else {
        decimal(n / 10).push(digit_char(n % 10))
    }
}

/// The decimal numeral of `n`, filled with zeros on the left up to `width` characters.
pub open spec fn zero_padded(n: nat, width: nat) -> Seq<char> {
    let d = decimal(n);
    if d.len() >= width {
        d
    } else {
        Seq::new((width - d.len()) as nat, |i: int| '0') + d
    }
}

/// The number of digits in the decimal numeral of `n`.
pub open spec fn decimal_len(n: nat) -> nat
    decreases n,
{
    if n < 10 {
        1
    } else {
        1 + decimal_len(n / 10)
    }
}

/// The numeral of `n` has `decimal_len(n)` characters.
pub proof fn lemma_decimal_len(n: nat)
    ensures
        decimal(n).len() == decimal_len(n),
    decreases n,
{
    if n >= 10 {
        lemma_decimal_len(n / 10);
    }
}

/// A numeral holds digits and nothing else.
pub proof fn lemma_decimal_digits(n: nat)
    ensures
        forall|i: int|
            0 <= i < decimal(n).len() ==> 48 <= (#[trigger] decimal(n)[i]) as int <= 57,
    decreases n,
{
    if n >= 10 {
        lemma_decimal_digits(n / 10);
        assert forall|i: int| 0 <= i < decimal(n).len() implies 48 <= (#[trigger] decimal(
            n,
        )[i]) as int <= 57 by {
            if i < decimal(n / 10).len() {
                assert(decimal(n)[i] == decimal(n / 10)[i]);
            }
        }
    }
}

/// Different numbers have different numerals.
pub proof fn lemma_decimal_injective(a: nat, b: nat)
    requires
        decimal(a) == decimal(b),
    ensures
        a == b,
    decreases a,
{
    lemma_decimal_len(a);
    lemma_decimal_len(b);
    if a < 10 || b < 10 {
        assert(decimal_len(a / 10) >= 1 && decimal_len(b / 10) >= 1);
        assert(decimal(a)[0] == digit_char(a));
    } else {
        let da = decimal(a / 10).push(digit_char(a % 10));
        let db = decimal(b / 10).push(digit_char(b % 10));
        assert(da.drop_last() =~= decimal(a / 10));
        assert(db.drop_last() =~= decimal(b / 10));
        assert(da.last() == digit_char(a % 10));
        lemma_decimal_injective(a / 10, b / 10);
    }
}

/// A zero-padded numeral has the width asked for, or the length of the
/// numeral where that is greater.
pub proof fn lemma_zero_padded_len(n: nat, width: nat)
    ensures
        zero_padded(n, width).len() == if decimal_len(n) >= width {
            decimal_len(n)
        } else {
            width
        },
{
    lemma_decimal_len(n);
}

/// A 64-bit number has at most twenty decimal digits.
pub proof fn lemma_decimal_len_u64(n: u64)
    ensures
        1 <= decimal_len(n as nat) <= 20,
{
    reveal_with_fuel(decimal_len, 21);
}

/// The number of digits in the decimal numeral of `n`.
pub fn decimal_width(n: u64) -> (k: usize)
    ensures
        k == decimal(n as nat).len(),
        1 <= k <= 20,
{
    let mut k: usize = 1;
    let mut rest: u64 = n;
    proof {
        lemma_decimal_len(n as nat);
        lemma_decimal_len_u64(n);
    }
    while rest >= 10
        invariant
            1 <= k,
            k + decimal_len(rest as nat) == decimal_len(n as nat) + 1,
            decimal_len(n as nat) <= 20,
        decreases rest,
    {
        rest = rest / 10;
        k = k + 1;
    }
    k
}

/// Appends the decimal numeral of `n` to `out`.
pub fn push_digits(out: &mut String, n: u64)
    ensures
        final(out)@ == old(out)@ + decimal(n as nat),
    decreases n,
{
    if n >= 10 {
        push_digits(out, n / 10);
    }
    let d: u8 = (n % 10) as u8;
    out.push((48u8 + d) as char);
}

/// Appends the decimal numeral of `n`, zero-padded to `width`, to `out`.
pub fn push_decimal(out: &mut String, n: u64, width: usize)
    ensures
        final(out)@ == old(out)@ + zero_padded(n as nat, width as nat),
{
    let n_digits: usize = decimal_width(n);
    let ghost before = out@;
    let mut pad: usize = n_digits;
    while pad < width
        invariant
            n_digits <= pad,
            pad <= width || pad == n_digits,
            out@ == before + Seq::new((pad - n_digits) as nat, |i: int| '0'),
        decreases width - pad,
    {
        out.push('0');
        pad = pad + 1;
    }
    push_digits(out, n);
}

} // verus!
