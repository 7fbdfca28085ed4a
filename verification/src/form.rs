//! The `application/x-www-form-urlencoded` serialisation of a value: byte by
//! byte over the value's UTF-8 encoding.

use vstd::prelude::*;
use vstd::string::StringSliceAdditionalSpecFns;
use vstd::utf8::{encode_utf8, is_ascii_chars, is_ascii_chars_encode_utf8};
use crate::text::push_char;

verus! {

/// `b` goes into a form as it is: an ASCII letter or digit, or one of `*-._`.
pub open spec fn is_form_safe(b: u8) -> bool {
    ||| 0x30 <= b <= 0x39
    ||| 0x41 <= b <= 0x5a
    ||| 0x61 <= b <= 0x7a
    ||| b == 0x2a
    ||| b == 0x2d
    ||| b == 0x2e
    ||| b == 0x5f
}

/// The uppercase hexadecimal digit for `d`, where `0 <= d < 16`.
pub open spec fn upper_hex_digit(d: int) -> char {
    if d == 0 {
        '0'
    } else if d == 1 {
        '1'
    } else if d == 2 {
        '2'
    } else if d == 3 {
        '3'
    } else if d == 4 {
        '4'
    } else if d == 5 {
        '5'
    } else if d == 6 {
        '6'
    } else if d == 7 {
        '7'
    } else if d == 8 {
        '8'
    } else if d == 9 {
        '9'
    } else if d == 10 {
        'A'
    } else if d == 11 {
        'B'
    } else if d == 12 {
        'C'
    } else if d == 13 {
        'D'
    } else if d == 14 {
        'E'
    } else {
        'F'
    }
}

/// What one byte becomes in a form: a safe byte stays, a space becomes `+`,
/// and any other byte becomes `%` and its two uppercase hexadecimal digits.
pub open spec fn form_byte(b: u8) -> Seq<char> {
    if is_form_safe(b) {
        seq![b as char]
    } else if b == 0x20 {
        seq!['+']
    } else {
        seq!['%', upper_hex_digit(b as int / 16), upper_hex_digit(b as int % 16)]
    }
}

/// What a run of bytes becomes in a form, byte by byte.
pub open spec fn form_bytes(bytes: Seq<u8>) -> Seq<char>
    decreases bytes.len(),
{
    if bytes.len() == 0 {
        Seq::empty()
    } else {
        form_bytes(bytes.drop_last()) + form_byte(bytes.last())
    }
}

/// What the value `v` becomes in a form: the serialisation of its UTF-8
/// bytes.
pub open spec fn form_value(v: Seq<char>) -> Seq<char> {
    form_bytes(encode_utf8(v))
}

/// A serialised value holds nothing but safe characters, `+` and `%`: none
/// of its characters parts two fields or a name from its value.
pub proof fn lemma_form_bytes_hold_no_separator(bytes: Seq<u8>, i: int)
    requires
        0 <= i < form_bytes(bytes).len(),
    ensures
        form_bytes(bytes)[i] != '&',
        form_bytes(bytes)[i] != '=',
        form_bytes(bytes)[i] != ' ',
    decreases bytes.len(),
{
    if bytes.len() > 0 {
        let front = form_bytes(bytes.drop_last());
        if i < front.len() {
            lemma_form_bytes_hold_no_separator(bytes.drop_last(), i);
        } else {
            let b = bytes.last();
            let k = i - front.len();
            assert(form_bytes(bytes)[i] == form_byte(b)[k]);
            if is_form_safe(b) {
                assert(b as char != '&' && b as char != '=' && b as char != ' ');
            }
        }
    }
}

/// Every character of `v` is an ASCII letter or digit or one of `*-._`.
pub open spec fn is_plain(v: Seq<char>) -> bool {
    forall|i: int|
        0 <= i < v.len() ==> '\0' <= #[trigger] v[i] <= '\u{7f}' && is_form_safe(v[i] as u8)
}

/// Safe bytes go into a form as the characters that they are.
pub proof fn lemma_safe_bytes_are_kept(bytes: Seq<u8>)
    requires
        forall|i: int| 0 <= i < bytes.len() ==> is_form_safe(#[trigger] bytes[i]),
    ensures
        form_bytes(bytes) == Seq::new(bytes.len(), |i: int| bytes[i] as char),
    decreases bytes.len(),
{
    if bytes.len() > 0 {
        let front = bytes.drop_last();
        lemma_safe_bytes_are_kept(front);
        assert(form_bytes(bytes) =~= Seq::new(bytes.len(), |i: int| bytes[i] as char));
    } else {
        assert(form_bytes(bytes) =~= Seq::new(bytes.len(), |i: int| bytes[i] as char));
    }
}

/// A plain value, such as an ordinary host name, goes into a form as it is.
pub proof fn lemma_plain_value_is_kept(v: Seq<char>)
    requires
        is_plain(v),
    ensures
        form_value(v) == v,
{
    assert(is_ascii_chars(v));
    is_ascii_chars_encode_utf8(v);
    let bytes = encode_utf8(v);
    assert forall|i: int| 0 <= i < bytes.len() implies is_form_safe(#[trigger] bytes[i]) by {
        assert(v[i] as u8 == bytes[i]);
    }
    lemma_safe_bytes_are_kept(bytes);
    assert(form_bytes(bytes) =~= v) by {
        assert forall|i: int| 0 <= i < v.len() implies form_bytes(bytes)[i] == v[i] by {
            assert(v[i] as u8 == bytes[i]);
            assert(bytes[i] as char == v[i]);
        }
    }
}

/// The uppercase hexadecimal digit for `d`.
fn upper_hex_char(d: u8) -> (c: char)
    requires
        d < 16,
    ensures
        c == upper_hex_digit(d as int),
{
    match d {
        0 => '0',
        1 => '1',
        2 => '2',
        3 => '3',
        4 => '4',
        5 => '5',
        6 => '6',
        7 => '7',
        8 => '8',
        9 => '9',
        10 => 'A',
        11 => 'B',
        12 => 'C',
        13 => 'D',
        14 => 'E',
        _ => 'F',
    }
}

/// Whether `b` goes into a form as it is.
pub fn form_safe(b: u8) -> (safe: bool)
    ensures
        safe == is_form_safe(b),
{
    (0x30 <= b && b <= 0x39) || (0x41 <= b && b <= 0x5a) || (0x61 <= b && b <= 0x7a) || b == 0x2a
        || b == 0x2d || b == 0x2e || b == 0x5f
}

/// Appends to `out` what `value` becomes in a form.
pub fn push_form_value(out: &mut String, value: &str)
    ensures
        final(out)@ == old(out)@ + form_value(value@),
{
    let bytes: &[u8] = value.as_bytes();
    let n: usize = bytes.len();
    let mut k: usize = 0;
    assert(bytes@.take(0) =~= Seq::<u8>::empty());
    assert(out@ =~= old(out)@ + form_bytes(bytes@.take(0)));
    while k < n
        invariant
            k <= n == bytes@.len(),
            bytes@ == encode_utf8(value@),
            out@ == old(out)@ + form_bytes(bytes@.take(k as int)),
        decreases n - k,
    {
        let b: u8 = bytes[k];
        let ghost before = out@;
        proof {
            assert(bytes@.take(k + 1).drop_last() =~= bytes@.take(k as int));
            assert(bytes@.take(k + 1).last() == b);
        }
        if form_safe(b) {
            push_char(out, b as char);
            assert(out@ =~= before + form_byte(b));
        } else if b == 0x20 {
            push_char(out, '+');
            assert(out@ =~= before + form_byte(b));
        } else {
            push_char(out, '%');
            push_char(out, upper_hex_char(b / 16));
            push_char(out, upper_hex_char(b % 16));
            assert(out@ =~= before + form_byte(b));
        }
        assert(out@ =~= old(out)@ + form_bytes(bytes@.take(k + 1)));
        k = k + 1;
    }
    assert(bytes@.take(n as int) =~= bytes@);
}

/// What `value` becomes in a form.
pub fn encode_form_value(value: &str) -> (out: String)
    ensures
        out@ == form_value(value@),
{
    let mut out = String::new();
    push_form_value(&mut out, value);
    assert(out@ =~= form_value(value@));
    out
}

} // verus!
