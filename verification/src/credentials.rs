//! Extraction of HTTP Basic credentials from an `Authorization` header
//! value: `<scheme> <base64(username:secret)>`, the scheme matched
//! case-insensitively against `Basic`, the first colon of the decoded
//! payload splitting the username from the secret.

use vstd::prelude::*;
use vstd::slice::{slice_index_get, slice_subrange};
use vstd::utf8::{decode_utf8, valid_utf8};

use crate::b64::{b64_decode, b64_decoded, b64_ok};

verus! {

/// One request's claimed identity: the pair carried by a Basic header.
pub struct Credential {
    pub username: String,
    pub secret: String,
}

/// Whether byte `b` occurs in `s`.
pub open spec fn has_byte(s: Seq<u8>, b: u8) -> bool {
    exists|k: int| 0 <= k < s.len() && s[k] == b
}

/// Whether `i` is the first position of byte `b` in `s`.
pub open spec fn is_first_byte_at(s: Seq<u8>, b: u8, i: int) -> bool {
    &&& 0 <= i < s.len()
    &&& s[i] == b
    &&& forall|k: int| 0 <= k < i ==> s[k] != b
}

/// The first position of byte `b` in `s`; meaningful only when
/// `has_byte(s, b)` holds.
pub open spec fn first_byte_at(s: Seq<u8>, b: u8) -> int {
    choose|i: int| is_first_byte_at(s, b, i)
}

proof fn lemma_first_byte_at(s: Seq<u8>, b: u8, i: int)
    requires
        is_first_byte_at(s, b, i),
    ensures
        has_byte(s, b),
        first_byte_at(s, b) == i,
{
    assert(has_byte(s, b)) by {
        assert(0 <= i < s.len() && s[i] == b);
    }
    let j = first_byte_at(s, b);
    assert(is_first_byte_at(s, b, j)) by {
        assert(is_first_byte_at(s, b, i));
    }
    if j < i {
        assert(s[j] != b);
    }
    if i < j {
        assert(s[i] != b);
    }
}

/// ASCII lower-casing of one byte.
pub open spec fn ascii_lower(b: u8) -> u8 {
    if 65 <= b && b <= 90 {
        (b + 32) as u8
    } else {
        b
    }
}

/// Whether the scheme bytes spell `basic` up to ASCII case.
pub open spec fn scheme_is_basic(s: Seq<u8>) -> bool {
    &&& s.len() == 5
    &&& ascii_lower(s[0]) == 98
    &&& ascii_lower(s[1]) == 97
    &&& ascii_lower(s[2]) == 115
    &&& ascii_lower(s[3]) == 105
    &&& ascii_lower(s[4]) == 99
}

/// The parse of an `Authorization` header value, or `None` where the
/// header is not well-formed Basic authentication: no space, a space
/// inside the payload, a scheme other than `Basic`, a payload that is
/// not valid base64, a decoded payload that is not UTF-8 text, or a
/// decoded payload without a colon.
pub open spec fn parse_basic(h: Seq<u8>) -> Option<(Seq<char>, Seq<char>)> {
    if !has_byte(h, 32) {
        None
    } else {
        let i = first_byte_at(h, 32);
        let scheme = h.subrange(0, i);
        let enc = h.subrange(i + 1, h.len() as int);
        if has_byte(enc, 32) {
            None
        } else if !scheme_is_basic(scheme) {
            None
        } else if !b64_ok(enc) {
            None
        } else {
            let d = b64_decoded(enc);
            if !has_byte(d, 58) {
                None
            } else {
                let j = first_byte_at(d, 58);
                let ub = d.subrange(0, j);
                let sb = d.subrange(j + 1, d.len() as int);
                if valid_utf8(ub) && valid_utf8(sb) {
                    Some((decode_utf8(ub), decode_utf8(sb)))
                } else {
                    None
                }
            }
        }
    }
}

/// Relies on `String::from_utf8`: returns the text decoding of the bytes
/// exactly when they are valid UTF-8.
#[verifier::external_body]
fn bytes_to_string(v: &[u8]) -> (r: Option<String>)
    ensures
        r.is_some() == valid_utf8(v@),
        r.is_some() ==> r.unwrap()@ == decode_utf8(v@),
{
    String::from_utf8(v.to_vec()).ok()
}

fn find_byte(s: &[u8], b: u8) -> (r: Option<usize>)
    ensures
        r.is_some() == has_byte(s@, b),
        r.is_some() ==> is_first_byte_at(s@, b, r.unwrap() as int),
{
    let n = s.len();
    let mut i: usize = 0;
    while i < n
        invariant
            n == s@.len(),
            i <= n,
            forall|k: int| 0 <= k < i ==> s@[k] != b,
        decreases n - i,
    {
        if *slice_index_get(s, i) == b {
            return Some(i);
        }
        i = i + 1;
    }
    None
}

fn ascii_lower_exec(b: u8) -> (r: u8)
    ensures
        r == ascii_lower(b),
{
    if 65 <= b && b <= 90 {
        b + 32
    } else {
        b
    }
}

/// Parses an `Authorization` header value into the credential it carries,
/// or `None` where the value is not well-formed Basic authentication.
pub fn extract_credentials(h: &[u8]) -> (r: Option<Credential>)
    ensures
        r.is_some() == parse_basic(h@).is_some(),
        r.is_some() ==> r.unwrap().username@ == parse_basic(h@).unwrap().0,
        r.is_some() ==> r.unwrap().secret@ == parse_basic(h@).unwrap().1,
{
    let i = match find_byte(h, 32) {
        Some(i) => i,
        None => {
            return None;
        },
    };
    proof {
        lemma_first_byte_at(h@, 32, i as int);
    }
    let n = h.len();
    assert(i < h@.len());
    let scheme = slice_subrange(h, 0, i);
    let enc = slice_subrange(h, i + 1, n);
    if find_byte(enc, 32).is_some() {
        return None;
    }
    if scheme.len() != 5 {
        return None;
    }
    let ok = ascii_lower_exec(*slice_index_get(scheme, 0)) == 98
        && ascii_lower_exec(*slice_index_get(scheme, 1)) == 97
        && ascii_lower_exec(*slice_index_get(scheme, 2)) == 115
        && ascii_lower_exec(*slice_index_get(scheme, 3)) == 105
        && ascii_lower_exec(*slice_index_get(scheme, 4)) == 99;
    if !ok {
        return None;
    }
    let d = match b64_decode(enc) {
        Some(d) => d,
        None => {
            return None;
        },
    };
    let j = match find_byte(d.as_slice(), 58) {
        Some(j) => j,
        None => {
            return None;
        },
    };
    proof {
        lemma_first_byte_at(d@, 58, j as int);
    }
    let ub = slice_subrange(d.as_slice(), 0, j);
    let sb = slice_subrange(d.as_slice(), j + 1, d.len());
    let username = match bytes_to_string(ub) {
        Some(s) => s,
        None => {
            return None;
        },
    };
    let secret = match bytes_to_string(sb) {
        Some(s) => s,
        None => {
            return None;
        },
    };
    Some(Credential { username, secret })
}

} // verus!
