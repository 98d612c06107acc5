//! Byte-level encodings: lower-case hexadecimal, decimal numerals, and a
//! comparison of byte strings that looks at every byte.

use vstd::prelude::*;
use vstd::string::StringExecFns;
use vstd::utf8::{
    encode_utf8, encode_utf8_decode_utf8, is_ascii_chars, is_ascii_chars_encode_utf8,
};

verus! {

/// The ASCII code of the lower-case hexadecimal digit for `n`.
pub open spec fn hex_digit(n: u8) -> u8 {
    if n < 10 {
        (48 + n) as u8
    } else {
        (87 + n) as u8
    }
}

/// The value of the lower-case hexadecimal digit with ASCII code `c`.
pub open spec fn hex_value(c: u8) -> Option<u8> {
    if 48 <= c <= 57 {
        Some((c - 48) as u8)
    } else if 97 <= c <= 102 {
        Some((c - 87) as u8)
    } else {
        None
    }
}

/// Two lower-case hexadecimal digits per byte, high nibble first.
pub open spec fn hex_encode(bytes: Seq<u8>) -> Seq<u8> {
    Seq::new(
        2 * bytes.len(),
        |i: int|
            if i % 2 == 0 {
                hex_digit(bytes[i / 2] / 16)
            } else {
                hex_digit(bytes[i / 2] % 16)
            },
    )
}

/// An even number of lower-case hexadecimal digits.
pub open spec fn is_hex(text: Seq<u8>) -> bool {
    &&& text.len() % 2 == 0
    &&& forall|i: int| 0 <= i < text.len() ==> hex_value(#[trigger] text[i]) is Some
}

/// The bytes that `text` spells in hexadecimal, if it is hexadecimal.
pub open spec fn hex_decode(text: Seq<u8>) -> Option<Seq<u8>> {
    if is_hex(text) {
        Some(
            Seq::new(
                text.len() / 2,
                |i: int| (hex_value(text[2 * i])->0 * 16 + hex_value(text[2 * i + 1])->0) as u8,
            ),
        )
    } else {
        None
    }
}

/// The text whose characters have the given ASCII codes.
pub open spec fn ascii_text(codes: Seq<u8>) -> Seq<char> {
    Seq::new(codes.len(), |i: int| codes[i] as char)
}

/// The decimal numeral of `n`, without leading zeros.
pub open spec fn decimal(n: nat) -> Seq<char>
    decreases n,
{
    if n < 10 {
        seq![hex_digit(n as u8) as char]
    } else {
        decimal(n / 10).push(hex_digit((n % 10) as u8) as char)
    }
}

/// Decoding undoes encoding.
pub proof fn lemma_hex_round_trip(bytes: Seq<u8>)
    ensures
        is_hex(hex_encode(bytes)),
        hex_decode(hex_encode(bytes)) == Some(bytes),
{
    let text = hex_encode(bytes);
    assert forall|i: int| 0 <= i < text.len() implies hex_value(#[trigger] text[i]) is Some by {
        let b = bytes[i / 2];
        assert(b / 16 < 16 && b % 16 < 16);
    }
    let back = hex_decode(text)->0;
    assert forall|k: int| 0 <= k < bytes.len() implies back[k] == bytes[k] by {
        let b = bytes[k];
        assert((2 * k) / 2 == k && (2 * k + 1) / 2 == k);
        assert((2 * k) % 2 == 0 && (2 * k + 1) % 2 == 1);
        assert(hex_value(hex_digit(b / 16)) == Some(b / 16));
        assert(hex_value(hex_digit(b % 16)) == Some(b % 16));
        assert((b / 16) * 16 + b % 16 == b);
    }
    assert(back =~= bytes);
}

/// Text made of ASCII codes is stored as those codes.
pub proof fn lemma_ascii_text_bytes(codes: Seq<u8>)
    requires
        forall|i: int| 0 <= i < codes.len() ==> #[trigger] codes[i] < 128,
    ensures
        is_ascii_chars(ascii_text(codes)),
        encode_utf8(ascii_text(codes)) == codes,
{
    let text = ascii_text(codes);
    assert forall|i: int| 0 <= i < text.len() implies '\0' <= #[trigger] text[i] <= '\u{7f}' by {
        assert(codes[i] < 128);
    }
    is_ascii_chars_encode_utf8(text);
    assert forall|i: int| 0 <= i < codes.len() implies encode_utf8(text)[i] == codes[i] by {
        assert(text[i] as u8 == encode_utf8(text)[i]);
        assert(codes[i] < 128);
    }
    assert(encode_utf8(text) =~= codes);
}

/// Hexadecimal text is ASCII.
pub proof fn lemma_hex_encode_is_ascii(bytes: Seq<u8>)
    ensures
        forall|i: int| 0 <= i < hex_encode(bytes).len() ==> #[trigger] hex_encode(bytes)[i] < 128,
        encode_utf8(ascii_text(hex_encode(bytes))) == hex_encode(bytes),
{
    let text = hex_encode(bytes);
    assert forall|i: int| 0 <= i < text.len() implies #[trigger] text[i] < 128 by {
        let b = bytes[i / 2];
        assert(b / 16 < 16 && b % 16 < 16);
    }
    lemma_ascii_text_bytes(text);
}

/// A numeral has at least one digit, and two digits from ten on.
pub proof fn lemma_decimal_len(n: nat)
    ensures
        decimal(n).len() >= 1,
        n >= 10 ==> decimal(n).len() >= 2,
    decreases n,
{
    if n >= 10 {
        lemma_decimal_len(n / 10);
    }
}

/// Different numbers have different numerals.
pub proof fn lemma_decimal_injective(a: nat, b: nat)
    requires
        decimal(a) == decimal(b),
    ensures
        a == b,
    decreases a,
{
    lemma_decimal_len(a);
    lemma_decimal_len(b);
    if a < 10 && b < 10 {
        let ca = hex_digit(a as u8) as char;
        let cb = hex_digit(b as u8) as char;
        assert(decimal(a)[0] == ca && decimal(b)[0] == cb);
        assert(ca == cb);
        assert(ca as u8 == cb as u8);
        assert(hex_digit(a as u8) as char as u8 == hex_digit(a as u8));
        assert(hex_digit(b as u8) as char as u8 == hex_digit(b as u8));
        assert(hex_digit(a as u8) == 48 + a && hex_digit(b as u8) == 48 + b);
    } else if a >= 10 && b >= 10 {
        let da = decimal(a / 10);
        let db = decimal(b / 10);
        let ca = hex_digit((a % 10) as u8) as char;
        let cb = hex_digit((b % 10) as u8) as char;
        assert(da.push(ca).last() == ca);
        assert(db.push(cb).last() == cb);
        assert(da.push(ca).drop_last() =~= da);
        assert(db.push(cb).drop_last() =~= db);
        assert(ca == cb);
        assert(ca as u8 == hex_digit((a % 10) as u8));
        assert(cb as u8 == hex_digit((b % 10) as u8));
        assert(hex_digit((a % 10) as u8) == 48 + a % 10);
        assert(hex_digit((b % 10) as u8) == 48 + b % 10);
        assert(a % 10 == b % 10);
        lemma_decimal_injective(a / 10, b / 10);
        assert(a == 10 * (a / 10) + a % 10 && b == 10 * (b / 10) + b % 10);
    } else {
        assert(decimal(a).len() != decimal(b).len());
    }
}

/// The one-character text of a hexadecimal digit.
fn hex_digit_text(n: u8) -> (s: &'static str)
    requires
        n < 16,
    ensures
        s@ == seq![hex_digit(n) as char],
{
    proof {
        reveal_strlit("0");
        reveal_strlit("1");
        reveal_strlit("2");
        reveal_strlit("3");
        reveal_strlit("4");
        reveal_strlit("5");
        reveal_strlit("6");
        reveal_strlit("7");
        reveal_strlit("8");
        reveal_strlit("9");
        reveal_strlit("a");
        reveal_strlit("b");
        reveal_strlit("c");
        reveal_strlit("d");
        reveal_strlit("e");
        reveal_strlit("f");
    }
    let s = match n {
        0 => "0",
        1 => "1",
        2 => "2",
        3 => "3",
        4 => "4",
        5 => "5",
        6 => "6",
        7 => "7",
        8 => "8",
        9 => "9",
        10 => "a",
        11 => "b",
        12 => "c",
        13 => "d",
        14 => "e",
        _ => "f",
    };
    assert(s@ =~= seq![hex_digit(n) as char]);
    s
}

/// Writes `bytes` as lower-case hexadecimal text.
pub fn to_hex(bytes: &[u8]) -> (text: String)
    ensures
        text@ == ascii_text(hex_encode(bytes@)),
{
    let mut text = String::new();
    let mut i: usize = 0;
    while i < bytes.len()
        invariant
            i <= bytes.len(),
            text@.len() == 2 * i,
            forall|j: int| 0 <= j < 2 * i ==> text@[j] == #[trigger] hex_encode(bytes@)[j] as char,
        decreases bytes.len() - i,
    {
        let b = bytes[i];
        let ghost before = text@;
        text.append(hex_digit_text(b / 16));
        text.append(hex_digit_text(b % 16));
        proof {
            let k = i as int;
            assert((2 * k) / 2 == k && (2 * k + 1) / 2 == k);
            assert((2 * k) % 2 == 0 && (2 * k + 1) % 2 == 1);
            assert(text@ =~= before + seq![hex_digit(b / 16) as char] + seq![
                hex_digit(b % 16) as char,
            ]);
            assert(text@[2 * k] == hex_encode(bytes@)[2 * k] as char);
            assert(text@[2 * k + 1] == hex_encode(bytes@)[2 * k + 1] as char);
        }
        i += 1;
    }
    assert(text@ =~= ascii_text(hex_encode(bytes@)));
    text
}

/// The value of one hexadecimal digit, or `None` for another byte.
fn hex_digit_value(c: u8) -> (v: Option<u8>)
    ensures
        v == hex_value(c),
{
    if 48 <= c && c <= 57 {
        Some(c - 48)
    } else if 97 <= c && c <= 102 {
        Some(c - 87)
    } else {
        None
    }
}

/// Reads lower-case hexadecimal text; `None` unless `text` is an even number
/// of hexadecimal digits.
pub fn from_hex(text: &[u8]) -> (bytes: Option<Vec<u8>>)
    ensures
        match bytes {
            Some(b) => hex_decode(text@) == Some(b@),
            None => hex_decode(text@) is None,
        },
{
    if text.len() % 2 != 0 {
        return None;
    }
    let mut out: Vec<u8> = Vec::new();
    let mut i: usize = 0;
    while i < text.len()
        invariant
            i <= text.len(),
            i % 2 == 0,
            text.len() % 2 == 0,
            out@.len() == i / 2,
            forall|j: int| 0 <= j < i ==> hex_value(#[trigger] text@[j]) is Some,
            forall|k: int|
                0 <= k < i / 2 ==> #[trigger] out@[k] == (hex_value(text@[2 * k])->0 * 16
                    + hex_value(text@[2 * k + 1])->0) as u8,
        decreases text.len() - i,
    {
        let hi = hex_digit_value(text[i]);
        let lo = hex_digit_value(text[i + 1]);
        match (hi, lo) {
            (Some(h), Some(l)) => {
                out.push(h * 16 + l);
            },
            _ => {
                assert(!is_hex(text@));
                return None;
            },
        }
        i += 2;
    }
    assert(is_hex(text@));
    assert(out@ =~= hex_decode(text@)->0);
    Some(out)
}

/// The decimal numeral of `n`.
pub fn decimal_string(n: u64) -> (s: String)
    ensures
        s@ == decimal(n as nat),
    decreases n,
{
    if n < 10 {
        String::from_str(hex_digit_text(n as u8))
    } else {
        let mut s = decimal_string(n / 10);
        s.append(hex_digit_text((n % 10) as u8));
        s
    }
}

/// Whether two byte strings are equal. Strings of one length are compared
/// byte by byte to the end, whatever the bytes are.
pub fn constant_time_eq(a: &[u8], b: &[u8]) -> (same: bool)
    ensures
        same == (a@ == b@),
{
    if a.len() != b.len() {
        return false;
    }
    let mut diff: u8 = 0;
    let mut i: usize = 0;
    while i < a.len()
        invariant
            i <= a.len(),
            a.len() == b.len(),
            diff == 0 <==> (forall|j: int| 0 <= j < i ==> a@[j] == b@[j]),
        decreases a.len() - i,
    {
        let x = a[i];
        let y = b[i];
        assert(((diff | (x ^ y)) == 0) <==> (diff == 0 && x == y)) by (bit_vector);
        diff = diff | (x ^ y);
        i += 1;
    }
    assert(diff == 0 ==> a@ =~= b@);
    diff == 0
}

/// Whether two texts are equal, found by comparing their bytes.
pub fn same_text(a: &str, b: &str) -> (same: bool)
    ensures
        same == (a@ == b@),
{
    proof {
        encode_utf8_decode_utf8(a@);
        encode_utf8_decode_utf8(b@);
    }
    constant_time_eq(a.as_bytes(), b.as_bytes())
}

} // verus!
