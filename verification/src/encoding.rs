//! Percent-encoding of the values that are spliced into request URLs.

use vstd::prelude::*;

use crate::outside::form_urlencode_bytes;

verus! {

/// Bytes that the `application/x-www-form-urlencoded` serializer leaves as
/// they are: ASCII letters and digits, `*`, `-`, `.` and `_`.
pub open spec fn byte_kept(b: u8) -> bool {
    ||| b == 0x2a
    ||| b == 0x2d
    ||| b == 0x2e
    ||| 0x30 <= b <= 0x39
    ||| 0x41 <= b <= 0x5a
    ||| b == 0x5f
    ||| 0x61 <= b <= 0x7a
}

/// The upper-case hexadecimal digit of `d < 16`.
pub open spec fn hex_digit(d: u8) -> char {
    if d < 10 {
        (48 + d) as char
    } else {
        (55 + d) as char
    }
}

/// How the serializer writes one byte: kept bytes as themselves, a space as
/// `+`, any other byte as `%XX` with upper-case hexadecimal digits.
pub open spec fn serialized_byte(b: u8) -> Seq<char> {
    if byte_kept(b) {
        seq![b as char]
    } else if b == 0x20 {
        seq!['+']
    } else {
        seq!['%', hex_digit(b / 16), hex_digit(b % 16)]
    }
}

/// The `application/x-www-form-urlencoded` byte serialization of `bytes`.
pub open spec fn form_urlencoded(bytes: Seq<u8>) -> Seq<char>
    decreases bytes.len(),
{
    if bytes.len() == 0 {
        Seq::empty()
    } else {
        serialized_byte(bytes[0]) + form_urlencoded(bytes.drop_first())
    }
}

/// The characters that serialized output is made of: ASCII letters and
/// digits, `*`, `-`, `.`, `_`, `+` and `%`.
pub open spec fn is_urlencoded_char(c: char) -> bool {
    ||| c == '*'
    ||| c == '-'
    ||| c == '.'
    ||| c == '_'
    ||| c == '+'
    ||| c == '%'
    ||| '0' <= c <= '9'
    ||| 'A' <= c <= 'Z'
    ||| 'a' <= c <= 'z'
}

/// Every character of a serialization is one of the characters that are
/// safe in a query: letters, digits, `*`, `-`, `.`, `_`, `+` and `%`. In
/// particular it holds no space, `&`, `=`, `?`, `#` or `/`.
pub proof fn lemma_form_urlencoded_alphabet(bytes: Seq<u8>)
    ensures
        forall|i: int|
            0 <= i < form_urlencoded(bytes).len() ==> is_urlencoded_char(
                #[trigger] form_urlencoded(bytes)[i],
            ),
    decreases bytes.len(),
{
    if bytes.len() > 0 {
        lemma_form_urlencoded_alphabet(bytes.drop_first());
        let b = bytes[0];
        let head = serialized_byte(b);
        let rest = form_urlencoded(bytes.drop_first());
        assert forall|i: int| 0 <= i < head.len() implies is_urlencoded_char(#[trigger] head[i]) by {
            if !byte_kept(b) && b != 0x20 && i > 0 {
                assert(b / 16 < 16 && b % 16 < 16);
            }
        }
        assert forall|i: int|
            0 <= i < form_urlencoded(bytes).len() implies is_urlencoded_char(
                #[trigger] form_urlencoded(bytes)[i],
            ) by {
            if i < head.len() {
                assert(form_urlencoded(bytes)[i] == head[i]);
            } else {
                assert(form_urlencoded(bytes)[i] == rest[i - head.len()]);
            }
        }
    }
}

/// Whether `x` is the ASCII code of a hexadecimal digit (either case).
pub open spec fn is_hex_byte(x: u8) -> bool {
    ||| 0x30 <= x <= 0x39
    ||| 0x41 <= x <= 0x46
    ||| 0x61 <= x <= 0x66
}

/// The value of the hexadecimal digit whose ASCII code is `x`.
pub open spec fn hex_value(x: u8) -> int {
    if 0x30 <= x <= 0x39 {
        x - 0x30
    } else if 0x41 <= x <= 0x46 {
        x - 0x41 + 10
    } else {
        x - 0x61 + 10
    }
}

/// The `application/x-www-form-urlencoded` decoding of the bytes of a
/// name or value: `+` is a space, `%` followed by two hexadecimal digits is
/// the byte they denote, every other byte stands for itself.
pub open spec fn form_urldecoded(input: Seq<u8>) -> Seq<u8>
    decreases input.len(),
{
    if input.len() == 0 {
        Seq::empty()
    } else if input[0] == 0x2b {
        seq![0x20u8] + form_urldecoded(input.skip(1))
    } else if input[0] == 0x25 && input.len() >= 3 && is_hex_byte(input[1]) && is_hex_byte(
        input[2],
    ) {
        seq![(hex_value(input[1]) * 16 + hex_value(input[2])) as u8] + form_urldecoded(
            input.skip(3),
        )
    } else {
        seq![input[0]] + form_urldecoded(input.skip(1))
    }
}

/// The bytes of a sequence of ASCII characters.
pub open spec fn ascii_bytes(cs: Seq<char>) -> Seq<u8> {
    cs.map_values(|c: char| c as u8)
}

/// Decoding the bytes of one serialized byte, followed by anything, gives
/// the byte back followed by the decoding of the rest.
proof fn lemma_decode_serialized_byte(b: u8, rest: Seq<u8>)
    ensures
        form_urldecoded(ascii_bytes(serialized_byte(b)) + rest) == seq![b] + form_urldecoded(rest),
{
    let head = ascii_bytes(serialized_byte(b));
    let input = head + rest;
    if byte_kept(b) {
        assert((b as char) as u8 == b);
        assert(head =~= seq![b]);
        assert(input.skip(1) =~= rest);
    } else if b == 0x20 {
        assert(head =~= seq![0x2bu8]);
        assert(input.skip(1) =~= rest);
    } else {
        let hi = b / 16;
        let lo = b % 16;
        assert(hi < 16 && lo < 16);
        let h1 = hex_digit(hi) as u8;
        let h2 = hex_digit(lo) as u8;
        assert(h1 == if hi < 10 { 48 + hi } else { 55 + hi });
        assert(h2 == if lo < 10 { 48 + lo } else { 55 + lo });
        assert(head =~= seq![0x25u8, h1, h2]);
        assert(is_hex_byte(h1) && hex_value(h1) == hi);
        assert(is_hex_byte(h2) && hex_value(h2) == lo);
        assert(hi * 16 + lo == b);
        assert(input.skip(3) =~= rest);
    }
}

/// Serialized output is ASCII, and its UTF-8 bytes are its characters'
/// codes.
proof fn lemma_form_urlencoded_ascii(bytes: Seq<u8>)
    ensures
        vstd::utf8::encode_utf8(form_urlencoded(bytes)) == ascii_bytes(form_urlencoded(bytes)),
{
    let out = form_urlencoded(bytes);
    lemma_form_urlencoded_alphabet(bytes);
    assert(vstd::utf8::is_ascii_chars(out)) by {
        assert forall|i| 0 <= i < out.len() implies '\0' <= #[trigger] out[i] <= '\u{7f}' by {
            assert(is_urlencoded_char(out[i]));
        }
    }
    vstd::utf8::is_ascii_chars_encode_utf8(out);
    assert(vstd::utf8::encode_utf8(out) =~= ascii_bytes(out));
}

/// Decoding undoes the serialization: the bytes of `form_urlencoded(bytes)`
/// decode to `bytes`.
pub proof fn lemma_form_urlencoded_roundtrip(bytes: Seq<u8>)
    ensures
        form_urldecoded(vstd::utf8::encode_utf8(form_urlencoded(bytes))) == bytes,
    decreases bytes.len(),
{
    lemma_form_urlencoded_ascii(bytes);
    if bytes.len() > 0 {
        let rest = bytes.drop_first();
        lemma_form_urlencoded_roundtrip(rest);
        lemma_form_urlencoded_ascii(rest);
        let head = serialized_byte(bytes[0]);
        assert(ascii_bytes(head + form_urlencoded(rest)) =~= ascii_bytes(head) + ascii_bytes(
            form_urlencoded(rest),
        ));
        lemma_decode_serialized_byte(bytes[0], ascii_bytes(form_urlencoded(rest)));
        assert(seq![bytes[0]] + rest =~= bytes);
    } else {
        assert(ascii_bytes(form_urlencoded(bytes)) =~= Seq::<u8>::empty());
    }
}

/// Decoding the encoding of a string gives the string back: the decoded
/// bytes are its UTF-8 bytes, which decode to it.
pub proof fn lemma_urlencode_roundtrip(s: Seq<char>)
    ensures
        vstd::utf8::decode_utf8(
            form_urldecoded(vstd::utf8::encode_utf8(form_urlencoded(vstd::utf8::encode_utf8(s)))),
        ) == s,
{
    lemma_form_urlencoded_roundtrip(vstd::utf8::encode_utf8(s));
    vstd::utf8::encode_utf8_decode_utf8(s);
}

/// Encodes `s` for use in a URL: its UTF-8 bytes through the
/// `application/x-www-form-urlencoded` byte serializer.
pub fn urlencode(s: &str) -> (r: String)
    ensures
        r@ == form_urlencoded(vstd::utf8::encode_utf8(s@)),
        forall|i: int| 0 <= i < r@.len() ==> is_urlencoded_char(#[trigger] r@[i]),
        vstd::utf8::decode_utf8(form_urldecoded(vstd::utf8::encode_utf8(r@))) == s@,
{
    proof {
        lemma_form_urlencoded_alphabet(vstd::utf8::encode_utf8(s@));
        lemma_urlencode_roundtrip(s@);
    }
    form_urlencode_bytes(s.as_bytes())
}

} // verus!
