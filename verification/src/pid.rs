//! PID record codec and validation.
//!
//! A managed process leaves a plain-text record holding its decimal
//! process id. The record written for a crashed session is read back on
//! the next start to find orphans. A record must round-trip exactly, and
//! a malformed or out-of-range value must be rejected before it is ever
//! used as a signal target.
//!
//! The codec recognises padding around the digits in ASCII whitespace
//! only, a deliberate restriction: the supervisor itself writes bare
//! digits, and a record wrapped in anything stranger simply fails to
//! parse and is discarded without signaling — the conservative
//! direction for a value that becomes a signal target.

use vstd::prelude::*;
use crate::text::{
    dec_digits, is_ascii_digit, is_decimal_numeral, lemma_dec_digits_all_digits,
    lemma_dec_digits_value, lemma_trim_noop, numeral_digits, numeral_value, parse_numeral_range,
    trim_ascii, trim_bounds,
};

verus! {

/// The decimal rendering of `pid`, exactly the bytes the record file
/// holds.
pub fn render_pid(pid: u32) -> (r: Vec<u8>)
    ensures
        r@ == dec_digits(pid as nat),
{
    let mut out: Vec<u8> = Vec::new();
    if pid == 0 {
        out.push(48);
        assert(out@ =~= dec_digits(0));
        return out;
    }
    let mut n: u32 = pid;
    while n > 0
        invariant
            n >= 0,
            if n == 0 {
                dec_digits(pid as nat) =~= out@
            } else {
                dec_digits(pid as nat) =~= dec_digits(n as nat) + out@
            },
        decreases n,
    {
        let d: u8 = 48 + (n % 10) as u8;
        let ghost prev = out@;
        out.insert(0, d);
        assert(out@ =~= seq![d] + prev);
        proof {
            if n < 10 {
                assert(dec_digits(n as nat) =~= seq![d]);
            } else {
                assert(dec_digits(n as nat) =~= dec_digits((n as nat) / 10).push(d));
                assert(dec_digits((n as nat) / 10).push(d) =~= dec_digits((n as nat) / 10) + seq![d]);
                assert(dec_digits(n as nat) + prev =~= dec_digits((n as nat) / 10) + (seq![d] + prev));
            }
            assert((n as nat) / 10 == (n / 10) as nat);
        }
        n = n / 10;
    }
    out
}

/// Parses a PID record as `u32::from_str` applied to the trimmed text
/// would: an optional `'+'` sign followed by digits whose value fits in
/// a `u32`. Anything else — empty, stray bytes, overflow — is `None`.
pub fn parse_pid(content: &Vec<u8>) -> (r: Option<u32>)
    ensures
        match r {
            Some(v) => is_decimal_numeral(trim_ascii(content@))
                && numeral_value(trim_ascii(content@)) == v as nat,
            None => !is_decimal_numeral(trim_ascii(content@))
                || numeral_value(trim_ascii(content@)) > u32::MAX,
        },
{
    let (lo, hi) = trim_bounds(content);
    parse_numeral_range(content, lo, hi)
}

/// A PID is a usable signal target only when it is positive and fits a
/// signed 32-bit integer; a negative or zero target would address a
/// process group instead of one process.
pub fn signal_target(pid: u32) -> (r: Option<i32>)
    ensures
        r == if 1 <= pid <= i32::MAX as u32 {
            Some(pid as i32)
        } else {
            None::<i32>
        },
{
    if pid >= 1 && pid <= i32::MAX as u32 {
        Some(pid as i32)
    } else {
        None
    }
}

/// Writing a PID record and reading it back yields the exact value that
/// was written, for every `u32`.
pub proof fn lemma_pid_record_round_trip(pid: u32)
    ensures
        is_decimal_numeral(trim_ascii(dec_digits(pid as nat))),
        numeral_value(trim_ascii(dec_digits(pid as nat))) == pid as nat,
{
    let d = dec_digits(pid as nat);
    lemma_dec_digits_all_digits(pid as nat);
    assert(is_ascii_digit(d[0]) && is_ascii_digit(d.last()));
    lemma_trim_noop(d);
    assert(numeral_digits(d) == d);
    lemma_dec_digits_value(pid as nat);
}

} // verus!
