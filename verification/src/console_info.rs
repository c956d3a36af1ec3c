//! Text helpers for rendering transfer progress.
//!
//! The console itself (terminal width, colors, line erasure) is a collaborator
//! outside this library; what is kept here is the text it needs: a
//! `HH:MM:SS` rendering of a number of seconds, and a byte-bounded truncation
//! of a file name.

use vstd::prelude::*;

use vstd::string::StringExecFns;
use vstd::string::StringSliceAdditionalSpecFns;
use vstd::string::StrSliceExecFns;
use vstd::utf8::decode_utf8;
use vstd::utf8::valid_utf8;

verus! {

/// The character for one decimal digit.
pub open spec fn digit_char(d: nat) -> char
    recommends
        d < 10,
{
    if d == 0 {
        '0'
    } else if d == 1 {
        '1'
    } else if d == 2 {
        '2'
    } else if d == 3 {
        '3'
    } else if d == 4 {
        '4'
    } else if d == 5 {
        '5'
    } else if d == 6 {
        '6'
    } else if d == 7 {
        '7'
    } else if d == 8 {
        '8'
    } else {
        '9'
    }
}

/// The decimal digits of `n`, most significant first, without leading zeros.
pub open spec fn dec_digits(n: nat) -> Seq<char>
    decreases n,
{
    if n < 10 {
        seq![digit_char(n)]
    } else {
        dec_digits(n / 10).push(digit_char(n % 10))
    }
}

/// The decimal digits of `n`, zero-padded on the left to at least two.
pub open spec fn pad2(n: nat) -> Seq<char> {
    if n < 10 {
        seq!['0'] + dec_digits(n)
    } else {
        dec_digits(n)
    }
}

/// `s` seconds rendered as zero-padded `HH:MM:SS`; the hours field widens
/// past two digits when it must.
pub open spec fn spec_human_seconds(s: nat) -> Seq<char> {
    pad2(s / 3600) + seq![':'] + pad2((s / 60) % 60) + seq![':'] + pad2(s % 60)
}

/// The one-character string for a decimal digit.
fn digit_str(d: u64) -> (r: &'static str)
    requires
        d < 10,
    ensures
        r@ == seq![digit_char(d as nat)],
{
    proof {
        reveal_strlit("0");
        reveal_strlit("1");
        reveal_strlit("2");
        reveal_strlit("3");
        reveal_strlit("4");
        reveal_strlit("5");
        reveal_strlit("6");
        reveal_strlit("7");
        reveal_strlit("8");
        reveal_strlit("9");
    }
    let r: &'static str = if d == 0 {
        "0"
    } else if d == 1 {
        "1"
    } else if d == 2 {
        "2"
    } else if d == 3 {
        "3"
    } else if d == 4 {
        "4"
    } else if d == 5 {
        "5"
    } else if d == 6 {
        "6"
    } else if d == 7 {
        "7"
    } else if d == 8 {
        "8"
    } else {
        "9"
    };
    proof {
        assert(r@ =~= seq![digit_char(d as nat)]);
    }
    r
}

/// Renders `n` in decimal.
fn decimal_string(n: u64) -> (r: String)
    ensures
        r@ == dec_digits(n as nat),
    decreases n,
{
    if n < 10 {
        digit_str(n).to_owned()
    } else {
        let prefix = decimal_string(n / 10);
        let r = prefix.concat(digit_str(n % 10));
        proof {
            assert(r@ =~= dec_digits((n / 10) as nat).push(digit_char((n % 10) as nat)));
        }
        r
    }
}

/// Renders `n` in decimal, zero-padded to at least two digits.
fn padded2(n: u64) -> (r: String)
    ensures
        r@ == pad2(n as nat),
{
    let digits = decimal_string(n);
    if n < 10 {
        let r = "0".to_owned().concat(digits.as_str());
        proof {
            reveal_strlit("0");
            assert(r@ =~= seq!['0'] + dec_digits(n as nat));
        }
        r
    } else {
        digits
    }
}

/// Renders a number of seconds as zero-padded `HH:MM:SS` (see
/// [`spec_human_seconds`]).
pub fn human_seconds(s: usize) -> (r: String)
    ensures
        r@ == spec_human_seconds(s as nat),
{
    let hours: u64 = (s / 3600) as u64;
    let minutes: u64 = ((s / 60) % 60) as u64;
    let seconds: u64 = (s % 60) as u64;
    let r = padded2(hours).concat(":").concat(padded2(minutes).as_str()).concat(":").concat(
        padded2(seconds).as_str(),
    );
    proof {
        reveal_strlit(":");
        assert(":"@ =~= seq![':']);
        assert(r@ =~= spec_human_seconds(s as nat));
    }
    r
}

/// `bytes` cut off after at most `maxsize` bytes.
pub open spec fn clipped(bytes: Seq<u8>, maxsize: int) -> Seq<u8> {
    if maxsize <= bytes.len() {
        bytes.take(maxsize)
    } else {
        bytes
    }
}

/// What the lossy UTF-8 decoding of a byte sequence reads as: each invalid
/// sequence stands replaced by the replacement character.
pub uninterp spec fn lossy_of(bytes: Seq<u8>) -> Seq<char>;

/// Relies on String::from_utf8_lossy: the decoding depends on the bytes
/// alone, and valid UTF-8 is decoded unchanged, with no replacement made.
#[verifier::external_body]
fn from_utf8_lossy(bytes: &[u8]) -> (r: String)
    ensures
        r@ == lossy_of(bytes@),
        valid_utf8(bytes@) ==> r@ == decode_utf8(bytes@),
{
    String::from_utf8_lossy(bytes).into_owned()
}

/// Truncates `text` so that it is sure to fit in `maxsize` bytes: the text's
/// UTF-8 bytes are cut off at `maxsize` and decoded lossily, so a character
/// cut in half becomes the replacement character rather than reaching the
/// terminal as a stray byte.
pub fn truncate_lossy(text: &str, maxsize: usize) -> (r: String)
    ensures
        r@ == lossy_of(clipped(text.spec_bytes(), maxsize as int)),
{
    let mut as_bytes = text.as_bytes_vec();
    as_bytes.truncate(maxsize);
    proof {
        assert(as_bytes@ =~= clipped(text.spec_bytes(), maxsize as int));
    }
    from_utf8_lossy(as_bytes.as_slice())
}

} // verus!
