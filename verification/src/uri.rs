//! Percent-encoding of query keys and values, as the local framework's URI
//! type performs it: a byte is kept exactly when it is an unreserved path or
//! query character; every other byte becomes `%` and two uppercase hex
//! digits. Non-ASCII text is encoded byte by byte from its UTF-8 form.

use vstd::prelude::*;
use vstd::string::StringSliceAdditionalSpecFns;
use crate::strutil::push_char;

verus! {

/// A byte that survives percent-encoding unchanged: a letter, a digit, or
/// one of `! $ ' ( ) * , - . : ; @ _ ~`.
pub open spec fn is_kept_byte(b: u8) -> bool {
    ||| 48 <= b <= 57
    ||| 65 <= b <= 90
    ||| 97 <= b <= 122
    ||| b == 33
    ||| b == 36
    ||| 39 <= b <= 42
    ||| 44 <= b <= 46
    ||| b == 58
    ||| b == 59
    ||| b == 64
    ||| b == 95
    ||| b == 126
}

/// The uppercase hexadecimal digit for a value below sixteen.
pub open spec fn hex_digit(n: u8) -> char {
    if n < 10 {
        (48 + n) as char
    } else {
        (55 + n) as char
    }
}

/// What one byte contributes to a percent-encoded string.
pub open spec fn encode_byte(b: u8) -> Seq<char> {
    if is_kept_byte(b) {
        seq![b as char]
    } else {
        seq!['%', hex_digit(b / 16), hex_digit(b % 16)]
    }
}

/// The percent-encoding of a byte sequence.
pub open spec fn percent_encode_bytes(bs: Seq<u8>) -> Seq<char>
    decreases bs.len(),
{
    if bs.len() == 0 {
        Seq::empty()
    } else {
        encode_byte(bs[0]) + percent_encode_bytes(bs.drop_first())
    }
}

/// The percent-encoding of the UTF-8 form of a string.
pub open spec fn percent_encode_str(s: Seq<char>) -> Seq<char> {
    percent_encode_bytes(vstd::utf8::encode_utf8(s))
}

fn hex_digit_char(n: u8) -> (r: char)
    requires
        n < 16,
    ensures
        r == hex_digit(n),
{
    if n < 10 {
        (48 + n) as char
    } else {
        (55 + n) as char
    }
}

/// Appends the percent-encoding of `s` to `out`.
pub fn append_percent_encoded(out: &mut String, s: &str)
    ensures
        final(out)@ == old(out)@ + percent_encode_str(s@),
{
    let bs = s.as_bytes();
    let n = bs.len();
    let mut i: usize = 0;
    proof {
        assert(bs@.skip(0) =~= bs@);
    }
    while i < n
        invariant
            i <= n,
            n == bs@.len(),
            bs@ == s.spec_bytes(),
            old(out)@ + percent_encode_bytes(bs@) == out@ + percent_encode_bytes(bs@.skip(i as int)),
        decreases n - i,
    {
        let b = bs[i];
        let ghost prev = out@;
        if 48 <= b && b <= 57 || 65 <= b && b <= 90 || 97 <= b && b <= 122 || b == 33 || b == 36
            || 39 <= b && b <= 42 || 44 <= b && b <= 46 || b == 58 || b == 59 || b == 64 || b == 95
            || b == 126 {
            push_char(out, b as char);
            proof {
                assert(out@ =~= prev + encode_byte(bs@[i as int]));
            }
        } else {
            push_char(out, '%');
            push_char(out, hex_digit_char(b / 16));
            push_char(out, hex_digit_char(b % 16));
            proof {
                assert(out@ =~= prev + encode_byte(bs@[i as int]));
            }
        }
        proof {
            let rest = bs@.skip(i as int);
            assert(rest[0] == bs@[i as int]);
            assert(rest.drop_first() =~= bs@.skip(i + 1));
            assert(prev + (encode_byte(bs@[i as int]) + percent_encode_bytes(bs@.skip(i + 1)))
                =~= out@ + percent_encode_bytes(bs@.skip(i + 1)));
        }
        i += 1;
    }
    proof {
        assert(bs@.skip(n as int) =~= Seq::<u8>::empty());
        assert(old(out)@ + percent_encode_bytes(bs@) =~= out@);
    }
}

} // verus!
