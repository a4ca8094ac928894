//! Strict standard base64 decoding, as HTTP Basic credentials use it:
//! the standard alphabet, `=` padding required to a multiple of four
//! characters, and non-canonical trailing bits rejected.

use vstd::prelude::*;

verus! {

/// The value of one character of the standard base64 alphabet,
/// or `None` for a character outside it.
pub open spec fn b64_val(b: u8) -> Option<u8> {
    if 65 <= b && b <= 90 {
        Some((b - 65) as u8)  // 'A'..='Z' -> 0..=25
    } else if 97 <= b && b <= 122 {
        Some((b - 71) as u8)  // 'a'..='z' -> 26..=51
    } else if 48 <= b && b <= 57 {
        Some((b + 4) as u8)  // '0'..='9' -> 52..=61
    } else if b == 43 {
        Some(62u8)  // '+'
    } else if b == 47 {
        Some(63u8)  // '/'
    } else {
        None
    }
}

/// How many `=` padding characters end the input: 0, 1 or 2.
pub open spec fn b64_pad(e: Seq<u8>) -> int {
    if e.len() >= 1 && e[e.len() - 1] == 61 {
        if e.len() >= 2 && e[e.len() - 2] == 61 {
            2
        } else {
            1
        }
    } else {
        0
    }
}

/// Whether `e` is a canonical padded standard-alphabet base64 encoding:
/// a multiple of four characters, every character before the padding in
/// the alphabet, and the unused low bits of the last sextet zero.
pub open spec fn b64_ok(e: Seq<u8>) -> bool {
    let n = e.len() as int;
    let p = b64_pad(e);
    &&& n % 4 == 0
    &&& (forall|i: int| 0 <= i < n - p ==> b64_val(#[trigger] e[i]).is_some())
    &&& (p == 1 ==> b64_val(e[n - 2]).unwrap() % 4 == 0)
    &&& (p == 2 ==> b64_val(e[n - 3]).unwrap() % 16 == 0)
}

/// The length of the decoding of a valid input: three bytes per group
/// of four characters, less one byte per padding character.
pub open spec fn b64_decoded_len(e: Seq<u8>) -> int {
    (e.len() as int) / 4 * 3 - b64_pad(e)
}

/// Byte `i` of the decoding: the bits of the group's sextets realigned.
pub open spec fn b64_byte(e: Seq<u8>, i: int) -> u8 {
    let g = i / 3;
    let x0 = b64_val(e[4 * g]).unwrap() as int;
    let x1 = b64_val(e[4 * g + 1]).unwrap() as int;
    let x2 = b64_val(e[4 * g + 2]).unwrap() as int;
    let x3 = b64_val(e[4 * g + 3]).unwrap() as int;
    if i % 3 == 0 {
        (x0 * 4 + x1 / 16) as u8
    } else if i % 3 == 1 {
        ((x1 % 16) * 16 + x2 / 4) as u8
    } else {
        ((x2 % 4) * 64 + x3) as u8
    }
}

/// The decoding of a valid input; meaningful only when `b64_ok(e)` holds.
pub open spec fn b64_decoded(e: Seq<u8>) -> Seq<u8> {
    Seq::new(b64_decoded_len(e) as nat, |i: int| b64_byte(e, i))
}

fn b64_val_exec(b: u8) -> (r: Option<u8>)
    ensures
        r == b64_val(b),
        r.is_some() ==> r.unwrap() < 64,
{
    if 65 <= b && b <= 90 {
        Some(b - 65)
    } else if 97 <= b && b <= 122 {
        Some(b - 71)
    } else if 48 <= b && b <= 57 {
        Some(b + 4)
    } else if b == 43 {
        Some(62)
    } else if b == 47 {
        Some(63)
    } else {
        None
    }
}

/// Decodes canonical padded standard base64, and rejects everything else.
pub fn b64_decode(e: &[u8]) -> (r: Option<Vec<u8>>)
    ensures
        r.is_some() == b64_ok(e@),
        r.is_some() ==> r.unwrap()@ == b64_decoded(e@),
{
    let n = e.len();
    if n % 4 != 0 {
        return None;
    }
    let p: usize = if n >= 1 && e[n - 1] == 61 {
        assert(n >= 4);
        if e[n - 2] == 61 {
            2
        } else {
            1
        }
    } else {
        0
    };
    assert(p == b64_pad(e@));
    assert(p > 0 ==> n >= 4);
    let groups = (n - p) / 4;
    assert(4 * groups <= n - p);
    assert(p == 0 ==> 4 * groups == n);
    assert(p > 0 ==> 4 * groups == n - 4);
    let mut out: Vec<u8> = Vec::new();
    let mut g: usize = 0;
    while g < groups
        invariant
            n == e@.len(),
            g <= groups,
            4 * groups <= n - p,
            p == b64_pad(e@),
            out@.len() == 3 * g,
            forall|k: int| 0 <= k < 4 * g ==> b64_val(#[trigger] e@[k]).is_some(),
            forall|i: int| 0 <= i < 3 * g ==> out@[i] == b64_byte(e@, i),
        decreases groups - g,
    {
        let x0 = match b64_val_exec(e[4 * g]) {
            Some(v) => v,
            None => {
                return None;
            },
        };
        let x1 = match b64_val_exec(e[4 * g + 1]) {
            Some(v) => v,
            None => {
                return None;
            },
        };
        let x2 = match b64_val_exec(e[4 * g + 2]) {
            Some(v) => v,
            None => {
                return None;
            },
        };
        let x3 = match b64_val_exec(e[4 * g + 3]) {
            Some(v) => v,
            None => {
                return None;
            },
        };
        out.push(x0 * 4 + x1 / 16);
        out.push((x1 % 16) * 16 + x2 / 4);
        out.push((x2 % 4) * 64 + x3);
        assert(out@[3 * g as int] == b64_byte(e@, 3 * g as int));
        assert(out@[3 * g as int + 1] == b64_byte(e@, 3 * g as int + 1));
        assert(out@[3 * g as int + 2] == b64_byte(e@, 3 * g as int + 2));
        g = g + 1;
    }
    if p == 1 {
        let x0 = match b64_val_exec(e[n - 4]) {
            Some(v) => v,
            None => {
                return None;
            },
        };
        let x1 = match b64_val_exec(e[n - 3]) {
            Some(v) => v,
            None => {
                return None;
            },
        };
        let x2 = match b64_val_exec(e[n - 2]) {
            Some(v) => v,
            None => {
                return None;
            },
        };
        if x2 % 4 != 0 {
            return None;
        }
        out.push(x0 * 4 + x1 / 16);
        out.push((x1 % 16) * 16 + x2 / 4);
    } else if p == 2 {
        let x0 = match b64_val_exec(e[n - 4]) {
            Some(v) => v,
            None => {
                return None;
            },
        };
        let x1 = match b64_val_exec(e[n - 3]) {
            Some(v) => v,
            None => {
                return None;
            },
        };
        if x1 % 16 != 0 {
            return None;
        }
        out.push(x0 * 4 + x1 / 16);
    }
    assert(b64_ok(e@));
    assert(out@ =~= b64_decoded(e@));
    Some(out)
}

} // verus!
