//! Transport encoding of the stub payloads: standard base64 with padding.
//!
//! `b64_ok` and `b64_decode` state which strings are canonical base64 and
//! which bytes they stand for; the one executable function defers the actual
//! decoding to the `base64` crate.

use vstd::prelude::*;
use base64::Engine;

verus! {

/// Value of one symbol of the standard base64 alphabet, or -1 for any other
/// character ('=' included).
pub open spec fn b64_val(c: char) -> int {
    let v = c as int;
    if 65 <= v && v <= 90 {
        v - 65  // 'A'..='Z'
    } else if 97 <= v && v <= 122 {
        v - 71  // 'a'..='z'
    } else if 48 <= v && v <= 57 {
        v + 4  // '0'..='9'
    } else if v == 43 {
        62  // '+'
    } else if v == 47 {
        63  // '/'
    } else {
        -1
    }
}

/// Canonical padded base64 (standard alphabet): a sequence of four-symbol
/// groups; only the last group may end in `=` or `==`, and the bits of the
/// final symbol that no decoded byte uses must be zero.
pub open spec fn b64_ok(s: Seq<char>) -> bool
    decreases s.len(),
{
    if s.len() == 0 {
        true
    } else if s.len() < 4 {
        false
    } else {
        let v0 = b64_val(s[0]);
        let v1 = b64_val(s[1]);
        if v0 < 0 || v1 < 0 {
            false
        } else if s[2] == '=' && s[3] == '=' {
            s.len() == 4 && v1 % 16 == 0
        } else if s[3] == '=' {
            let v2 = b64_val(s[2]);
            s.len() == 4 && v2 >= 0 && v2 % 4 == 0
        } else {
            let v2 = b64_val(s[2]);
            let v3 = b64_val(s[3]);
            v2 >= 0 && v3 >= 0 && b64_ok(s.skip(4))
        }
    }
}

/// The bytes a canonical base64 string stands for: three bytes from each full
/// group, two from a group ending in `=`, one from a group ending in `==`.
/// Meaningful only on strings that `b64_ok` admits.
pub open spec fn b64_decode(s: Seq<char>) -> Seq<u8>
    decreases s.len(),
{
    if s.len() < 4 {
        Seq::empty()
    } else {
        let v0 = b64_val(s[0]);
        let v1 = b64_val(s[1]);
        let b0 = (v0 * 4 + v1 / 16) as u8;
        if s[2] == '=' && s[3] == '=' {
            seq![b0]
        } else {
            let v2 = b64_val(s[2]);
            let b1 = ((v1 % 16) * 16 + v2 / 4) as u8;
            if s[3] == '=' {
                seq![b0, b1]
            } else {
                let v3 = b64_val(s[3]);
                let b2 = ((v2 % 4) * 64 + v3) as u8;
                seq![b0, b1, b2] + b64_decode(s.skip(4))
            }
        }
    }
}

/// Relies on `base64::engine::general_purpose::STANDARD.decode`: the standard
/// alphabet with canonical padding required and trailing bits rejected, so it
/// accepts exactly the strings `b64_ok` admits and returns the bytes
/// `b64_decode` names.
#[verifier::external_body]
pub(crate) fn decode_base64(s: &str) -> (r: Option<Vec<u8>>)
    ensures
        r is Some <==> b64_ok(s@),
        r matches Some(v) ==> v@ == b64_decode(s@),
{
    base64::engine::general_purpose::STANDARD.decode(s).ok()
}

} // verus!
