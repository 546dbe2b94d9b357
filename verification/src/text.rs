//! Text helpers shared by the record codecs, the relay filter and the
//! validators: whitespace trimming (at byte level for records, at
//! character level for text arriving from outside) and decimal digit
//! reasoning.

use vstd::prelude::*;
use vstd::string::StrSliceExecFns;

verus! {

/// ASCII whitespace, as `char::is_whitespace` classifies bytes below 128:
/// space, tab, line feed, vertical tab, form feed, carriage return.
pub open spec fn is_ascii_whitespace(b: u8) -> bool {
    b == 32 || (9 <= b && b <= 13)
}

/// Whitespace as `char::is_whitespace` classifies it: the twenty-five
/// characters with the Unicode `White_Space` property.
pub open spec fn is_ws_char(c: char) -> bool {
    c == '\t' || c == '\n' || c == '\u{b}' || c == '\u{c}' || c == '\r' || c == ' '
        || c == '\u{85}' || c == '\u{a0}' || c == '\u{1680}' || c == '\u{2000}'
        || c == '\u{2001}' || c == '\u{2002}' || c == '\u{2003}' || c == '\u{2004}'
        || c == '\u{2005}' || c == '\u{2006}' || c == '\u{2007}' || c == '\u{2008}'
        || c == '\u{2009}' || c == '\u{200a}' || c == '\u{2028}' || c == '\u{2029}'
        || c == '\u{202f}' || c == '\u{205f}' || c == '\u{3000}'
}

/// Whether a character counts as whitespace when text from outside is
/// trimmed.
pub fn char_is_whitespace(c: char) -> (r: bool)
    ensures
        r == is_ws_char(c),
{
    c == '\t' || c == '\n' || c == '\u{b}' || c == '\u{c}' || c == '\r' || c == ' '
        || c == '\u{85}' || c == '\u{a0}' || c == '\u{1680}' || c == '\u{2000}'
        || c == '\u{2001}' || c == '\u{2002}' || c == '\u{2003}' || c == '\u{2004}'
        || c == '\u{2005}' || c == '\u{2006}' || c == '\u{2007}' || c == '\u{2008}'
        || c == '\u{2009}' || c == '\u{200a}' || c == '\u{2028}' || c == '\u{2029}'
        || c == '\u{202f}' || c == '\u{205f}' || c == '\u{3000}'
}

/// A decimal digit character `'0'..='9'`.
pub open spec fn is_digit_char(c: char) -> bool {
    48 <= c as u32 && c as u32 <= 57
}

/// The characters left after dropping leading whitespace.
pub open spec fn trim_front_chars(s: Seq<char>) -> Seq<char>
    decreases s.len(),
{
    if s.len() > 0 && is_ws_char(s[0]) {
        trim_front_chars(s.drop_first())
    } else {
        s
    }
}

/// The characters left after dropping trailing whitespace.
pub open spec fn trim_back_chars(s: Seq<char>) -> Seq<char>
    decreases s.len(),
{
    if s.len() > 0 && is_ws_char(s.last()) {
        trim_back_chars(s.drop_last())
    } else {
        s
    }
}

/// The characters left after trimming whitespace from both ends:
/// exactly what `str::trim` keeps.
pub open spec fn trim_chars(s: Seq<char>) -> Seq<char> {
    trim_back_chars(trim_front_chars(s))
}

proof fn lemma_trim_front_chars_at(s: Seq<char>, k: int)
    requires
        0 <= k <= s.len(),
        forall|i: int| 0 <= i < k ==> is_ws_char(s[i]),
        k == s.len() || !is_ws_char(s[k]),
    ensures
        trim_front_chars(s) =~= s.subrange(k, s.len() as int),
    decreases k,
{
    if k == 0 {
        assert(s.subrange(0, s.len() as int) =~= s);
    } else {
        let t = s.drop_first();
        assert(t =~= s.subrange(1, s.len() as int));
        lemma_trim_front_chars_at(t, k - 1);
        assert(t.subrange(k - 1, t.len() as int) =~= s.subrange(k, s.len() as int));
    }
}

proof fn lemma_trim_back_chars_at(s: Seq<char>, k: int)
    requires
        0 <= k <= s.len(),
        forall|i: int| k <= i < s.len() ==> is_ws_char(s[i]),
        k == 0 || !is_ws_char(s[k - 1]),
    ensures
        trim_back_chars(s) =~= s.subrange(0, k),
    decreases s.len(),
{
    if k == s.len() {
        assert(s.subrange(0, k) =~= s);
    } else {
        let t = s.drop_last();
        assert(t =~= s.subrange(0, s.len() - 1));
        lemma_trim_back_chars_at(t, k);
        assert(t.subrange(0, k) =~= s.subrange(0, k));
    }
}

/// The character range of `s` left after trimming whitespace from both
/// ends: trimming keeps exactly `s@[lo..hi]`.
pub fn trim_char_bounds(s: &str) -> (r: (usize, usize))
    ensures
        0 <= r.0 <= r.1 <= s@.len(),
        trim_chars(s@) =~= s@.subrange(r.0 as int, r.1 as int),
{
    let n = s.unicode_len();
    let mut lo: usize = 0;
    while lo < n && char_is_whitespace(s.get_char(lo))
        invariant
            0 <= lo <= n,
            n == s@.len(),
            forall|i: int| 0 <= i < lo ==> is_ws_char(s@[i]),
        decreases n - lo,
    {
        lo = lo + 1;
    }
    let mut hi: usize = n;
    while hi > lo && char_is_whitespace(s.get_char(hi - 1))
        invariant
            lo <= hi <= n,
            n == s@.len(),
            forall|i: int| 0 <= i < lo ==> is_ws_char(s@[i]),
            forall|i: int| hi <= i < n ==> is_ws_char(s@[i]),
        decreases hi,
    {
        hi = hi - 1;
    }
    proof {
        lemma_trim_front_chars_at(s@, lo as int);
        let f = s@.subrange(lo as int, n as int);
        lemma_trim_back_chars_at(f, hi - lo);
        assert(f.subrange(0, hi - lo) =~= s@.subrange(lo as int, hi as int));
    }
    (lo, hi)
}

/// ASCII decimal digit `'0'..='9'`.
pub open spec fn is_ascii_digit(b: u8) -> bool {
    48 <= b && b <= 57
}

/// The input without its leading ASCII whitespace.
pub open spec fn trim_front(s: Seq<u8>) -> Seq<u8>
    decreases s.len(),
{
    if s.len() > 0 && is_ascii_whitespace(s[0]) {
        trim_front(s.drop_first())
    } else {
        s
    }
}

/// The input without its trailing ASCII whitespace.
pub open spec fn trim_back(s: Seq<u8>) -> Seq<u8>
    decreases s.len(),
{
    if s.len() > 0 && is_ascii_whitespace(s.last()) {
        trim_back(s.drop_last())
    } else {
        s
    }
}

/// The input without leading and trailing ASCII whitespace.
pub open spec fn trim_ascii(s: Seq<u8>) -> Seq<u8> {
    trim_back(trim_front(s))
}

/// Every byte of the sequence is a decimal digit.
pub open spec fn all_digits(s: Seq<u8>) -> bool {
    forall|i: int| 0 <= i < s.len() ==> is_ascii_digit(s[i])
}

/// The numeric value of a sequence of decimal digit bytes, most
/// significant first.
pub open spec fn digits_value(s: Seq<u8>) -> nat
    decreases s.len(),
{
    if s.len() == 0 {
        0
    } else {
        (digits_value(s.drop_last()) * 10 + (s.last() - 48)) as nat
    }
}

/// The digits of a decimal numeral: the whole sequence, or what follows
/// one leading `'+'` sign.
pub open spec fn numeral_digits(s: Seq<u8>) -> Seq<u8> {
    if s.len() > 0 && s[0] == 43 {
        s.drop_first()
    } else {
        s
    }
}

/// A non-negative decimal numeral as `u32::from_str` accepts it: an
/// optional `'+'` sign followed by at least one digit.
pub open spec fn is_decimal_numeral(s: Seq<u8>) -> bool {
    numeral_digits(s).len() > 0 && all_digits(numeral_digits(s))
}

/// The value of a decimal numeral.
pub open spec fn numeral_value(s: Seq<u8>) -> nat {
    digits_value(numeral_digits(s))
}

/// The shortest decimal rendering of `n`, most significant digit first.
pub open spec fn dec_digits(n: nat) -> Seq<u8>
    decreases n,
{
    if n < 10 {
        seq![(48 + n) as u8]
    } else {
        dec_digits(n / 10).push((48 + n % 10) as u8)
    }
}

proof fn lemma_trim_front_at(s: Seq<u8>, k: int)
    requires
        0 <= k <= s.len(),
        forall|i: int| 0 <= i < k ==> is_ascii_whitespace(s[i]),
        k == s.len() || !is_ascii_whitespace(s[k]),
    ensures
        trim_front(s) =~= s.subrange(k, s.len() as int),
    decreases k,
{
    if k == 0 {
        assert(s.subrange(0, s.len() as int) =~= s);
    } else {
        let t = s.drop_first();
        assert(t =~= s.subrange(1, s.len() as int));
        lemma_trim_front_at(t, k - 1);
        assert(t.subrange(k - 1, t.len() as int) =~= s.subrange(k, s.len() as int));
    }
}

proof fn lemma_trim_back_at(s: Seq<u8>, k: int)
    requires
        0 <= k <= s.len(),
        forall|i: int| k <= i < s.len() ==> is_ascii_whitespace(s[i]),
        k == 0 || !is_ascii_whitespace(s[k - 1]),
    ensures
        trim_back(s) =~= s.subrange(0, k),
    decreases s.len(),
{
    if k == s.len() {
        assert(s.subrange(0, k) =~= s);
    } else {
        let t = s.drop_last();
        assert(t =~= s.subrange(0, s.len() - 1));
        lemma_trim_back_at(t, k);
        assert(t.subrange(0, k) =~= s.subrange(0, k));
    }
}

/// Trimming leaves a sequence with no whitespace at either end unchanged.
pub proof fn lemma_trim_noop(s: Seq<u8>)
    requires
        s.len() > 0,
        !is_ascii_whitespace(s[0]),
        !is_ascii_whitespace(s.last()),
    ensures
        trim_ascii(s) == s,
{
    lemma_trim_front_at(s, 0);
    assert(trim_front(s) =~= s);
    lemma_trim_back_at(s, s.len() as int);
    assert(trim_back(s) =~= s);
}

/// Within an all-digit sequence, the value of a prefix never exceeds the
/// value of a longer prefix.
pub proof fn lemma_digits_value_take_mono(s: Seq<u8>, i: int, j: int)
    requires
        0 <= i <= j <= s.len(),
        all_digits(s),
    ensures
        digits_value(s.take(i)) <= digits_value(s.take(j)),
    decreases j - i,
{
    if i < j {
        lemma_digits_value_take_mono(s, i, j - 1);
        let p = s.take(j);
        assert(p.drop_last() =~= s.take(j - 1));
        assert(digits_value(s.take(j - 1)) <= digits_value(p));
    }
}

/// The decimal rendering consists only of digits.
pub proof fn lemma_dec_digits_all_digits(n: nat)
    ensures
        dec_digits(n).len() >= 1,
        all_digits(dec_digits(n)),
    decreases n,
{
    if n >= 10 {
        lemma_dec_digits_all_digits(n / 10);
    }
}

/// Reading the decimal rendering of `n` back as digits yields `n`.
pub proof fn lemma_dec_digits_value(n: nat)
    ensures
        digits_value(dec_digits(n)) == n,
    decreases n,
{
    if n < 10 {
        let d = dec_digits(n);
        assert(d.drop_last() =~= Seq::<u8>::empty());
        assert(d.last() == (48 + n) as u8);
        assert(digits_value(d) == (digits_value(d.drop_last()) * 10 + (d.last() - 48)) as nat);
    } else {
        lemma_dec_digits_value(n / 10);
        let d = dec_digits(n);
        assert(d.drop_last() =~= dec_digits(n / 10));
        assert(d.last() == (48 + n % 10) as u8);
        assert(digits_value(d) == (digits_value(d.drop_last()) * 10 + (d.last() - 48)) as nat);
        assert(digits_value(d) == (n / 10) * 10 + n % 10);
    }
}

/// Parses `v[start..end]` as `u32::from_str` would: an optional `'+'`
/// sign followed by digits whose value fits a `u32`; anything else is
/// `None`.
pub fn parse_numeral_range(v: &Vec<u8>, start: usize, end: usize) -> (r: Option<u32>)
    requires
        start <= end <= v@.len(),
    ensures
        match r {
            Some(x) => is_decimal_numeral(v@.subrange(start as int, end as int))
                && numeral_value(v@.subrange(start as int, end as int)) == x as nat,
            None => !is_decimal_numeral(v@.subrange(start as int, end as int))
                || numeral_value(v@.subrange(start as int, end as int)) > u32::MAX,
        },
{
    let ghost t = v@.subrange(start as int, end as int);
    if start == end {
        assert(numeral_digits(t).len() == 0);
        return None;
    }
    let dstart: usize = if v[start] == 43 {
        start + 1
    } else {
        start
    };
    let ghost ds = numeral_digits(t);
    proof {
        assert(t[0] == v@[start as int]);
        assert(ds =~= v@.subrange(dstart as int, end as int));
    }
    if dstart == end {
        assert(ds.len() == 0);
        return None;
    }
    let mut i: usize = dstart;
    let mut acc: u32 = 0;
    while i < end
        invariant
            dstart <= i <= end <= v@.len(),
            t == v@.subrange(start as int, end as int),
            ds == numeral_digits(t),
            ds =~= v@.subrange(dstart as int, end as int),
            ds.len() > 0,
            forall|k: int| 0 <= k < i - dstart ==> is_ascii_digit(ds[k]),
            acc as nat == digits_value(ds.take(i - dstart)),
        decreases end - i,
    {
        let b = v[i];
        assert(b == ds[i - dstart]);
        if b < 48 || b > 57 {
            proof {
                assert(0 <= i - dstart < ds.len());
                assert(!is_ascii_digit(ds[i - dstart]));
                assert(!all_digits(ds));
                assert(!is_decimal_numeral(t));
            }
            return None;
        }
        let d: u32 = (b - 48) as u32;
        let overflow = acc > u32::MAX / 10 || (acc == u32::MAX / 10 && d > u32::MAX % 10);
        proof {
            let p = ds.take(i - dstart + 1);
            assert(p.drop_last() =~= ds.take(i - dstart));
            assert(p.last() == ds[i - dstart]);
            assert(digits_value(p) == (acc as nat) * 10 + d);
        }
        if overflow {
            proof {
                let p = ds.take(i - dstart + 1);
                assert((acc as nat) * 10 + d > u32::MAX);
                if all_digits(ds) {
                    lemma_digits_value_take_mono(ds, i - dstart + 1, ds.len() as int);
                    assert(ds.take(ds.len() as int) =~= ds);
                    assert(digits_value(ds) >= digits_value(p));
                    assert(numeral_value(t) == digits_value(ds));
                    assert(numeral_value(t) > u32::MAX);
                } else {
                    assert(!is_decimal_numeral(t));
                }
            }
            return None;
        }
        acc = acc * 10 + (b - 48) as u32;
        i = i + 1;
    }
    proof {
        assert(ds.take(end - dstart) =~= ds);
    }
    Some(acc)
}

/// The byte range of `v` left after trimming ASCII whitespace from both
/// ends: trimming keeps exactly `v[lo..hi]`.
pub fn trim_bounds(v: &Vec<u8>) -> (r: (usize, usize))
    ensures
        0 <= r.0 <= r.1 <= v@.len(),
        trim_ascii(v@) =~= v@.subrange(r.0 as int, r.1 as int),
{
    let n = v.len();
    let mut lo: usize = 0;
    while lo < n && (v[lo] == 32 || (9 <= v[lo] && v[lo] <= 13))
        invariant
            0 <= lo <= n,
            n == v@.len(),
            forall|i: int| 0 <= i < lo ==> is_ascii_whitespace(v@[i]),
        decreases n - lo,
    {
        lo = lo + 1;
    }
    let mut hi: usize = n;
    while hi > lo && (v[hi - 1] == 32 || (9 <= v[hi - 1] && v[hi - 1] <= 13))
        invariant
            lo <= hi <= n,
            n == v@.len(),
            forall|i: int| 0 <= i < lo ==> is_ascii_whitespace(v@[i]),
            forall|i: int| hi <= i < n ==> is_ascii_whitespace(v@[i]),
        decreases hi,
    {
        hi = hi - 1;
    }
    proof {
        lemma_trim_front_at(v@, lo as int);
        let f = v@.subrange(lo as int, n as int);
        lemma_trim_back_at(f, hi - lo);
        assert(f.subrange(0, hi - lo) =~= v@.subrange(lo as int, hi as int));
    }
    (lo, hi)
}

} // verus!
