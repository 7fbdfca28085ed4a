//! The MD5 digest of a byte string and its lowercase hexadecimal form.

use vstd::prelude::*;
use md5::Digest;

verus! {

/// The MD5 digest of `data`, as the md-5 crate computes it.
pub uninterp spec fn md5_digest(data: Seq<u8>) -> Seq<u8>;

/// Calls `Md5::digest` of the md-5 crate. Trusted: that the bytes returned are
/// the digest named `md5_digest` of the input, a function of the input alone,
/// and that there are 16 of them (the crate fixes the output size at 16 bytes).
#[verifier::external_body]
pub(crate) fn md5_of(data: &[u8]) -> (out: Vec<u8>)
    ensures
        out@ == md5_digest(data@),
        out@.len() == 16,
{
    md5::Md5::digest(data).to_vec()
}

/// The lowercase hexadecimal digit for `d`, where `0 <= d < 16`.
pub open spec fn hex_digit(d: int) -> char {
    if d == 0 {
        '0'
    } else if d == 1 {
        '1'
    } else if d == 2 {
        '2'
    } else if d == 3 {
        '3'
    } else if d == 4 {
        '4'
    } else if d == 5 {
        '5'
    } else if d == 6 {
        '6'
    } else if d == 7 {
        '7'
    } else if d == 8 {
        '8'
    } else if d == 9 {
        '9'
    } else if d == 10 {
        'a'
    } else if d == 11 {
        'b'
    } else if d == 12 {
        'c'
    } else if d == 13 {
        'd'
    } else if d == 14 {
        'e'
    } else {
        'f'
    }
}

/// Two lowercase hexadecimal digits for each byte, the high half first.
pub open spec fn hex_lower(bytes: Seq<u8>) -> Seq<char> {
    Seq::new(
        2 * bytes.len(),
        |i: int| if i % 2 == 0 {
            hex_digit(bytes[i / 2] as int / 16)
        } else {
            hex_digit(bytes[i / 2] as int % 16)
        },
    )
}

/// The one-character text of the hexadecimal digit `d`.
fn hex_digit_str(d: u8) -> (s: &'static str)
    requires
        d < 16,
    ensures
        s@ == seq![hex_digit(d as int)],
{
    proof {
        reveal_strlit("0");
        reveal_strlit("1");
        reveal_strlit("2");
        reveal_strlit("3");
        reveal_strlit("4");
        reveal_strlit("5");
        reveal_strlit("6");
        reveal_strlit("7");
        reveal_strlit("8");
        reveal_strlit("9");
        reveal_strlit("a");
        reveal_strlit("b");
        reveal_strlit("c");
        reveal_strlit("d");
        reveal_strlit("e");
        reveal_strlit("f");
    }
    let s = match d {
        0 => "0",
        1 => "1",
        2 => "2",
        3 => "3",
        4 => "4",
        5 => "5",
        6 => "6",
        7 => "7",
        8 => "8",
        9 => "9",
        10 => "a",
        11 => "b",
        12 => "c",
        13 => "d",
        14 => "e",
        _ => "f",
    };
    assert(s@ =~= seq![hex_digit(d as int)]);
    s
}

/// The lowercase hexadecimal text of `bytes`.
pub fn to_hex(bytes: &[u8]) -> (out: String)
    ensures
        out@ == hex_lower(bytes@),
{
    let mut out = String::new();
    let n: usize = bytes.len();
    let mut k: usize = 0;
    while k < n
        invariant
            k <= n == bytes@.len(),
            out@ == hex_lower(bytes@.take(k as int)),
        decreases n - k,
    {
        let b: u8 = bytes[k];
        out.append(hex_digit_str(b / 16));
        out.append(hex_digit_str(b % 16));
        proof {
            let before = bytes@.take(k as int);
            let after = bytes@.take(k + 1);
            assert(out@ =~= hex_lower(after)) by {
                assert forall|i: int| 0 <= i < 2 * (k + 1) implies out@[i] == hex_lower(after)[i] by {
                    if i < 2 * k {
                        assert(out@[i] == hex_lower(before)[i]);
                        assert(before[i / 2] == after[i / 2]);
                    }
                }
            }
        }
        k = k + 1;
    }
    proof {
        assert(bytes@.take(n as int) =~= bytes@);
    }
    out
}

/// The hexadecimal MD5 digest of the bytes of `a` followed by those of `b`.
pub open spec fn md5_hex(a: Seq<u8>, b: Seq<u8>) -> Seq<char> {
    hex_lower(md5_digest(a + b))
}

} // verus!
