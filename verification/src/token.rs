//! The state token guarding the deep-link sign-in flow.
//!
//! Before the interface opens the sign-in page it asks for a fresh
//! random token; the deep link coming back must carry the same token or
//! it is rejected. The token is 32 random bytes rendered as 64
//! lowercase hexadecimal characters.

use vstd::prelude::*;
use vstd::string::{StringExecFns, StrSliceExecFns};

verus! {

/// Random bytes drawn for one state token.
pub const STATE_TOKEN_BYTES: usize = 32;

/// The lowercase hexadecimal character for one value below 16.
pub open spec fn hex_digit_char(d: u8) -> char {
    if d == 0 {
        '0'
    } else if d == 1 {
        '1'
    } else if d == 2 {
        '2'
    } else if d == 3 {
        '3'
    } else if d == 4 {
        '4'
    } else if d == 5 {
        '5'
    } else if d == 6 {
        '6'
    } else if d == 7 {
        '7'
    } else if d == 8 {
        '8'
    } else if d == 9 {
        '9'
    } else if d == 10 {
        'a'
    } else if d == 11 {
        'b'
    } else if d == 12 {
        'c'
    } else if d == 13 {
        'd'
    } else if d == 14 {
        'e'
    } else {
        'f'
    }
}

/// A lowercase hexadecimal character.
pub open spec fn is_hex_char(c: char) -> bool {
    exists|d: u8| d < 16 && c == hex_digit_char(d)
}

/// The lowercase hexadecimal rendering of a byte sequence, two
/// characters per byte, high nibble first.
pub open spec fn hex_chars(s: Seq<u8>) -> Seq<char>
    decreases s.len(),
{
    if s.len() == 0 {
        Seq::empty()
    } else {
        hex_chars(s.drop_last()) + seq![
            hex_digit_char((s.last() / 16) as u8),
            hex_digit_char((s.last() % 16) as u8),
        ]
    }
}

/// The rendering is two characters per byte, all of them hexadecimal.
pub proof fn lemma_hex_chars_shape(s: Seq<u8>)
    ensures
        hex_chars(s).len() == 2 * s.len(),
        forall|i: int| 0 <= i < hex_chars(s).len() ==> is_hex_char(hex_chars(s)[i]),
    decreases s.len(),
{
    if s.len() > 0 {
        lemma_hex_chars_shape(s.drop_last());
        assert(is_hex_char(hex_digit_char((s.last() / 16) as u8)));
        assert(is_hex_char(hex_digit_char((s.last() % 16) as u8)));
    }
}

/// One hexadecimal character as a string slice.
fn hex_char_str(d: u8) -> (c: &'static str)
    requires
        d < 16,
    ensures
        c@ == seq![hex_digit_char(d)],
{
    proof {
        reveal_strlit("0");
        reveal_strlit("1");
        reveal_strlit("2");
        reveal_strlit("3");
        reveal_strlit("4");
        reveal_strlit("5");
        reveal_strlit("6");
        reveal_strlit("7");
        reveal_strlit("8");
        reveal_strlit("9");
        reveal_strlit("a");
        reveal_strlit("b");
        reveal_strlit("c");
        reveal_strlit("d");
        reveal_strlit("e");
        reveal_strlit("f");
    }
    if d == 0 {
        "0"
    } else if d == 1 {
        "1"
    } else if d == 2 {
        "2"
    } else if d == 3 {
        "3"
    } else if d == 4 {
        "4"
    } else if d == 5 {
        "5"
    } else if d == 6 {
        "6"
    } else if d == 7 {
        "7"
    } else if d == 8 {
        "8"
    } else if d == 9 {
        "9"
    } else if d == 10 {
        "a"
    } else if d == 11 {
        "b"
    } else if d == 12 {
        "c"
    } else if d == 13 {
        "d"
    } else if d == 14 {
        "e"
    } else {
        "f"
    }
}

/// Renders bytes as lowercase hexadecimal.
pub fn hex_encode(bytes: &Vec<u8>) -> (s: String)
    ensures
        s@ == hex_chars(bytes@),
{
    let mut s = String::new();
    let n = bytes.len();
    let mut i: usize = 0;
    proof {
        assert(bytes@.take(0) =~= Seq::<u8>::empty());
    }
    while i < n
        invariant
            0 <= i <= n,
            n == bytes@.len(),
            s@ == hex_chars(bytes@.take(i as int)),
        decreases n - i,
    {
        let b = bytes[i];
        s.append(hex_char_str(b / 16));
        s.append(hex_char_str(b % 16));
        proof {
            let p = bytes@.take(i + 1);
            assert(p.drop_last() =~= bytes@.take(i as int));
            assert(p.last() == bytes@[i as int]);
            assert(hex_chars(p) == hex_chars(bytes@.take(i as int)) + seq![
                hex_digit_char((bytes@[i as int] / 16) as u8),
                hex_digit_char((bytes@[i as int] % 16) as u8),
            ]);
        }
        i = i + 1;
    }
    proof {
        assert(bytes@.take(n as int) =~= bytes@);
    }
    s
}

#[verifier::external_type_specification]
#[verifier::external_body]
pub struct ExGetrandomError(getrandom::Error);

/// Relies on `getrandom::fill`: on success the whole buffer was filled
/// from the system's random source. The bytes themselves are random, so
/// nothing is promised of them.
#[verifier::external_body]
fn fill_random(n: usize) -> (r: Result<Vec<u8>, getrandom::Error>)
    ensures
        match r {
            Ok(v) => v@.len() == n,
            Err(_) => true,
        },
{
    let mut buf = vec![0u8; n];
    match getrandom::fill(&mut buf) {
        Ok(()) => Ok(buf),
        Err(e) => Err(e),
    }
}

/// Draws a fresh sign-in state token: 64 lowercase hexadecimal
/// characters from 32 random bytes. `None` only when the system's
/// random source fails.
pub fn fresh_state_token() -> (r: Option<String>)
    ensures
        match r {
            Some(s) => s@.len() == 2 * STATE_TOKEN_BYTES && (forall|i: int|
                0 <= i < s@.len() ==> is_hex_char(s@[i])),
            None => true,
        },
{
    match fill_random(STATE_TOKEN_BYTES) {
        Ok(bytes) => {
            let s = hex_encode(&bytes);
            proof {
                lemma_hex_chars_shape(bytes@);
            }
            Some(s)
        },
        Err(_) => None,
    }
}

} // verus!
