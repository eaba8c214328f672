//! Encodings of bytes and text on the wire.
use crate::text::decimal;
use vstd::prelude::*;
use vstd::string::*;
use vstd::utf8::*;

use base64::engine::general_purpose::STANDARD;
use base64::Engine;

verus! {

/// The characters that an address carries as they are.
pub open spec fn is_unreserved(b: u8) -> bool {
    ||| '0' as u8 <= b && b <= '9' as u8
    ||| 'A' as u8 <= b && b <= 'Z' as u8
    ||| 'a' as u8 <= b && b <= 'z' as u8
    ||| b == '-' as u8
    ||| b == '.' as u8
    ||| b == '_' as u8
    ||| b == '~' as u8
}

/// A number below sixteen as an upper-case hexadecimal digit.
pub open spec fn hex_digit(n: int) -> char {
    if n < 10 {
        ('0' as u32 + n) as char
    } else {
        ('A' as u32 + (n - 10)) as char
    }
}

/// One byte: itself where it is unreserved, else `%` and two digits.
pub open spec fn percent_byte(b: u8) -> Seq<char> {
    if is_unreserved(b) {
        seq![b as char]
    } else {
        seq!['%', hex_digit(b as int / 16), hex_digit(b as int % 16)]
    }
}

/// Bytes with every reserved one percent-encoded.
pub open spec fn percent_bytes(bytes: Seq<u8>) -> Seq<char>
    decreases bytes.len(),
{
    if bytes.len() == 0 {
        Seq::empty()
    } else {
        percent_byte(bytes.first()) + percent_bytes(bytes.drop_first())
    }
}

/// Text with every reserved byte of its UTF-8 form percent-encoded.
pub open spec fn percent_encoded(text: Seq<char>) -> Seq<char> {
    percent_bytes(encode_utf8(text))
}

proof fn lemma_percent_bytes_safe(bytes: Seq<u8>, i: int)
    requires
        0 <= i < percent_bytes(bytes).len(),
    ensures
        ({
            let c = percent_bytes(bytes)[i];
            c == '%' || (c as u32 <= 0x7f && is_unreserved(c as u8))
        }),
    decreases bytes.len(),
{
    let head = percent_byte(bytes.first());
    if i >= head.len() {
        lemma_percent_bytes_safe(bytes.drop_first(), i - head.len());
    }
}

/// Percent-encoded text holds unreserved characters and `%` only, so it cannot
/// end the part of an address that it stands in.
pub proof fn percent_encoded_text_is_safe(text: Seq<char>, i: int)
    requires
        0 <= i < percent_encoded(text).len(),
    ensures
        ({
            let c = percent_encoded(text)[i];
            c == '%' || (c as u32 <= 0x7f && is_unreserved(c as u8))
        }),
{
    lemma_percent_bytes_safe(encode_utf8(text), i);
}

proof fn lemma_percent_bytes_injective(a: Seq<u8>, b: Seq<u8>)
    requires
        percent_bytes(a) == percent_bytes(b),
    ensures
        a == b,
    decreases a.len(),
{
    if a.len() == 0 || b.len() == 0 {
        if a.len() > 0 {
            assert(percent_bytes(a).len() > 0);
        }
        if b.len() > 0 {
            assert(percent_bytes(b).len() > 0);
        }
        assert(a == b);
    } else {
        let whole = percent_bytes(a);
        let left = percent_byte(a.first());
        let right = percent_byte(b.first());
        assert(whole[0] == left[0]);
        assert(whole[0] == right[0]);
        if !is_unreserved(a.first()) && !is_unreserved(b.first()) {
            assert(whole[1] == left[1] && whole[1] == right[1]);
            assert(whole[2] == left[2] && whole[2] == right[2]);
        }
        assert(a.first() == b.first());
        assert(percent_bytes(a.drop_first()) == whole.skip(left.len() as int));
        assert(percent_bytes(b.drop_first()) == whole.skip(right.len() as int));
        lemma_percent_bytes_injective(a.drop_first(), b.drop_first());
        assert(a == seq![a.first()] + a.drop_first());
        assert(b == seq![b.first()] + b.drop_first());
    }
}

/// Different texts are percent-encoded differently.
pub proof fn percent_encoding_is_injective(a: Seq<char>, b: Seq<char>)
    requires
        percent_encoded(a) == percent_encoded(b),
    ensures
        a == b,
{
    lemma_percent_bytes_injective(encode_utf8(a), encode_utf8(b));
    encode_utf8_decode_utf8(a);
    encode_utf8_decode_utf8(b);
}

/// `urlencoding::encode` percent-encodes every byte of the UTF-8 form but the
/// ASCII letters and digits and `-`, `.`, `_`, `~`, with upper-case digits.
#[verifier::external_body]
pub(crate) fn percent_encode(text: &str) -> (encoded: String)
    ensures
        encoded@ == percent_encoded(text@),
{
    urlencoding::encode(text).into_owned()
}

/// The character that stands for six bits in the standard alphabet.
pub open spec fn sextet_char(n: int) -> char {
    if n < 26 {
        ('A' as u32 + n) as char
    } else if n < 52 {
        ('a' as u32 + (n - 26)) as char
    } else if n < 62 {
        ('0' as u32 + (n - 52)) as char
    } else if n == 62 {
        '+'
    } else {
        '/'
    }
}

/// The first of the four characters that stand for three bytes, and so on.
pub open spec fn first_char(a: u8) -> char {
    sextet_char(a as int / 4)
}

pub open spec fn second_char(a: u8, b: u8) -> char {
    sextet_char(a as int % 4 * 16 + b as int / 16)
}

pub open spec fn third_char(b: u8, c: u8) -> char {
    sextet_char(b as int % 16 * 4 + c as int / 64)
}

pub open spec fn fourth_char(c: u8) -> char {
    sextet_char(c as int % 64)
}

/// Bytes in base64, with the standard alphabet: four characters for every three
/// bytes, and `=` in place of those that the last group does not reach.
pub open spec fn base64_text(bytes: Seq<u8>) -> Seq<char>
    decreases bytes.len(),
{
    if bytes.len() == 0 {
        Seq::empty()
    } else if bytes.len() == 1 {
        seq![first_char(bytes[0]), second_char(bytes[0], 0), '=', '=']
    } else if bytes.len() == 2 {
        seq![
            first_char(bytes[0]),
            second_char(bytes[0], bytes[1]),
            third_char(bytes[1], 0),
            '=',
        ]
    } else {
        seq![
            first_char(bytes[0]),
            second_char(bytes[0], bytes[1]),
            third_char(bytes[1], bytes[2]),
            fourth_char(bytes[2]),
        ] + base64_text(bytes.skip(3))
    }
}

/// The six bits that a character of the standard alphabet stands for.
pub open spec fn char_sextet(c: char) -> int {
    if 'A' <= c && c <= 'Z' {
        c as u32 - 'A' as u32
    } else if 'a' <= c && c <= 'z' {
        c as u32 - 'a' as u32 + 26
    } else if '0' <= c && c <= '9' {
        c as u32 - '0' as u32 + 52
    } else if c == '+' {
        62
    } else {
        63
    }
}

/// The bytes that text in base64 stands for.
pub open spec fn base64_bytes(text: Seq<char>) -> Seq<u8>
    decreases text.len(),
{
    if text.len() < 4 {
        Seq::empty()
    } else {
        let first = (char_sextet(text[0]) * 4 + char_sextet(text[1]) / 16) as u8;
        let second = (char_sextet(text[1]) % 16 * 16 + char_sextet(text[2]) / 4) as u8;
        let third = (char_sextet(text[2]) % 4 * 64 + char_sextet(text[3])) as u8;
        if text[2] == '=' {
            seq![first]
        } else if text[3] == '=' {
            seq![first, second]
        } else {
            seq![first, second, third] + base64_bytes(text.skip(4))
        }
    }
}

proof fn lemma_sextet(n: int)
    requires
        0 <= n < 64,
    ensures
        char_sextet(sextet_char(n)) == n,
        sextet_char(n) != '=',
{
}

/// Decoding what bytes are encoded to gives the bytes back.
pub proof fn base64_decodes_to_what_was_encoded(bytes: Seq<u8>)
    ensures
        base64_bytes(base64_text(bytes)) == bytes,
    decreases bytes.len(),
{
    let text = base64_text(bytes);
    if bytes.len() > 0 {
        let a = bytes[0];
        let b = if bytes.len() > 1 { bytes[1] } else { 0 };
        let c = if bytes.len() > 2 { bytes[2] } else { 0 };
        lemma_sextet(a as int / 4);
        lemma_sextet(a as int % 4 * 16 + b as int / 16);
        lemma_sextet(b as int % 16 * 4 + c as int / 64);
        lemma_sextet(c as int % 64);
        if bytes.len() > 2 {
            base64_decodes_to_what_was_encoded(bytes.skip(3));
            assert(text.skip(4) == base64_text(bytes.skip(3)));
            assert(bytes == seq![a, b, c] + bytes.skip(3));
        }
        assert(base64_bytes(text) == bytes);
    }
}

/// A character that can stand in base64 text.
pub open spec fn is_base64_char(c: char) -> bool {
    ||| 'A' <= c && c <= 'Z'
    ||| 'a' <= c && c <= 'z'
    ||| '0' <= c && c <= '9'
    ||| c == '+'
    ||| c == '/'
    ||| c == '='
}

/// Base64 text is four characters for every three bytes begun, all of them of
/// the alphabet or `=`: nothing stands before, between or behind them.
pub proof fn base64_text_is_nothing_but_base64(bytes: Seq<u8>)
    ensures
        base64_text(bytes).len() == (bytes.len() + 2) / 3 * 4,
        forall|i: int|
            0 <= i < base64_text(bytes).len() ==> is_base64_char(#[trigger] base64_text(bytes)[i]),
    decreases bytes.len(),
{
    if bytes.len() > 2 {
        base64_text_is_nothing_but_base64(bytes.skip(3));
        let rest = base64_text(bytes.skip(3));
        let text = base64_text(bytes);
        assert forall|i: int| 0 <= i < text.len() implies is_base64_char(#[trigger] text[i]) by {
            if i >= 4 {
                assert(text[i] == rest[i - 4]);
            }
        }
    }
}

/// The bytes are few enough for their base64 form, four characters for every
/// three bytes begun, to be held in memory.
pub open spec fn base64_fits(len: nat) -> bool {
    (len + 2) / 3 * 4 <= isize::MAX
}

/// Whether that many bytes are few enough for their base64 form to be held in
/// memory.
pub fn fits_base64(len: usize) -> (fits: bool)
    ensures
        fits == base64_fits(len as nat),
{
    let whole: usize = len / 3;
    let groups: usize = if len % 3 == 0 {
        whole
    } else {
        whole + 1
    };
    groups <= isize::MAX as usize / 4
}

/// `Engine::encode` of base64's `STANDARD` engine encodes with the alphabet of
/// `A` to `Z`, `a` to `z`, `0` to `9`, `+` and `/`, and pads with `=`. It panics
/// where the encoded form exceeds what can be allocated.
#[verifier::external_body]
pub(crate) fn base64_encode(bytes: &[u8]) -> (encoded: String)
    requires
        base64_fits(bytes@.len()),
    ensures
        encoded@ == base64_text(bytes@),
{
    STANDARD.encode(bytes)
}

/// What `String::from_utf8_lossy` reads bytes as.
pub uninterp spec fn lossy_text(bytes: Seq<u8>) -> Seq<char>;

/// `String::from_utf8_lossy` reads valid UTF-8 as the text it encodes, and puts
/// a replacement character where the bytes are not valid. What it replaces is
/// not stated.
#[verifier::external_body]
pub(crate) fn read_lossily(bytes: &[u8]) -> (text: String)
    ensures
        text@ == lossy_text(bytes@),
        valid_utf8(bytes@) ==> text@ == decode_utf8(bytes@),
{
    String::from_utf8_lossy(bytes).into_owned()
}

/// A number that can be an HTTP status code.
pub open spec fn is_status(code: u16) -> bool {
    100 <= code <= 999
}

/// A status code that reports success.
pub open spec fn is_success(code: u16) -> bool {
    200 <= code <= 299
}

/// How `reqwest::StatusCode` writes itself.
pub uninterp spec fn status_line(code: u16) -> Seq<char>;

/// The `Display` of `reqwest::StatusCode` writes the number, a space and the
/// usual phrase for it, which depends on the number alone.
#[verifier::external_body]
pub(crate) fn write_status(code: u16) -> (line: String)
    requires
        is_status(code),
    ensures
        line@ == status_line(code),
        decimal(code as nat).push(' ').is_prefix_of(line@),
{
    reqwest::StatusCode::from_u16(code).unwrap().to_string()
}

proof fn lemma_percent_bytes_joined(a: Seq<u8>, b: Seq<u8>)
    ensures
        percent_bytes(a + b) == percent_bytes(a) + percent_bytes(b),
    decreases a.len(),
{
    if a.len() == 0 {
        assert(a + b == b);
    } else {
        lemma_percent_bytes_joined(a.drop_first(), b);
        assert((a + b).drop_first() == a.drop_first() + b);
    }
}

proof fn lemma_hex_digit(n: int)
    requires
        0 <= n < 16,
    ensures
        hex_digit(n) == "0123456789ABCDEF"@[n],
{
    reveal_strlit("0123456789ABCDEF");
    assert(n == 0 || n == 1 || n == 2 || n == 3 || n == 4 || n == 5 || n == 6 || n == 7
        || n == 8 || n == 9 || n == 10 || n == 11 || n == 12 || n == 13 || n == 14 || n == 15);
}

/// Text is percent-encoded byte by byte: the letters `A` to `Z` and `a` to `z`,
/// the digits, `-`, `.`, `_` and `~` stand for themselves, and every other byte
/// becomes `%` and its two hexadecimal digits.
pub proof fn percent_encoding_goes_byte_by_byte(text: Seq<char>, a: Seq<u8>, b: Seq<u8>, byte: u8)
    ensures
        percent_encoded(text) == percent_bytes(encode_utf8(text)),
        percent_bytes(Seq::empty()) == Seq::<char>::empty(),
        percent_bytes(a + b) == percent_bytes(a) + percent_bytes(b),
        percent_bytes(seq![byte]) == if set![
            'A', 'B', 'C', 'D', 'E', 'F', 'G', 'H', 'I', 'J', 'K', 'L', 'M', 'N', 'O', 'P', 'Q',
            'R', 'S', 'T', 'U', 'V', 'W', 'X', 'Y', 'Z', 'a', 'b', 'c', 'd', 'e', 'f', 'g', 'h',
            'i', 'j', 'k', 'l', 'm', 'n', 'o', 'p', 'q', 'r', 's', 't', 'u', 'v', 'w', 'x', 'y',
            'z', '0', '1', '2', '3', '4', '5', '6', '7', '8', '9', '-', '.', '_', '~',
        ].contains(byte as char) {
            seq![byte as char]
        } else {
            seq![
                '%',
                "0123456789ABCDEF"@[byte as int / 16],
                "0123456789ABCDEF"@[byte as int % 16],
            ]
        },
{
    lemma_percent_bytes_joined(a, b);
    lemma_hex_digit(byte as int / 16);
    lemma_hex_digit(byte as int % 16);
    let one = seq![byte];
    assert(one.drop_first() == Seq::<u8>::empty());
    assert(percent_bytes(one) == percent_byte(byte) + percent_bytes(one.drop_first()));
    assert(percent_bytes(one) == percent_byte(byte));
}

proof fn lemma_alphabet(n: int)
    requires
        0 <= n < 64,
    ensures
        sextet_char(n) == "ABCDEFGHIJKLMNOPQRSTUVWXYZabcdefghijklmnopqrstuvwxyz0123456789+/"@[n],
{
    reveal_strlit("ABCDEFGHIJKLMNOPQRSTUVWXYZabcdefghijklmnopqrstuvwxyz0123456789+/");
    assert(n == 0 || n == 1 || n == 2 || n == 3 || n == 4 || n == 5 || n == 6 || n == 7
        || n == 8 || n == 9 || n == 10 || n == 11 || n == 12 || n == 13 || n == 14 || n == 15
        || n == 16 || n == 17 || n == 18 || n == 19 || n == 20 || n == 21 || n == 22 || n == 23
        || n == 24 || n == 25 || n == 26 || n == 27 || n == 28 || n == 29 || n == 30 || n == 31
        || n == 32 || n == 33 || n == 34 || n == 35 || n == 36 || n == 37 || n == 38 || n == 39
        || n == 40 || n == 41 || n == 42 || n == 43 || n == 44 || n == 45 || n == 46 || n == 47
        || n == 48 || n == 49 || n == 50 || n == 51 || n == 52 || n == 53 || n == 54 || n == 55
        || n == 56 || n == 57 || n == 58 || n == 59 || n == 60 || n == 61 || n == 62 || n == 63);
}

proof fn lemma_six_bits(a: u8, b: u8, c: u8)
    ensures
        ({
            let bits = a * 65536 + b * 256 + c;
            &&& bits / 262144 == a as int / 4
            &&& bits / 4096 % 64 == a as int % 4 * 16 + b as int / 16
            &&& bits / 64 % 64 == b as int % 16 * 4 + c as int / 64
            &&& bits % 64 == c as int % 64
        }),
{
    let bits = a * 65536 + b * 256 + c;
    let first = a as int / 4;
    let second = a as int % 4 * 16 + b as int / 16;
    let third = b as int % 16 * 4 + c as int / 64;
    let fourth = c as int % 64;
    assert(bits == first * 262144 + second * 4096 + third * 64 + fourth);
    assert(bits / 64 == first * 4096 + second * 64 + third);
    assert(bits / 4096 == first * 64 + second);
}

/// Three bytes are one number of twenty-four bits, and each six bits of it are
/// one character of the alphabet. At the end one byte is written with two
/// characters and `==`, and two bytes with three characters and `=`.
pub proof fn base64_writes_six_bits_a_character(a: u8, b: u8, c: u8, rest: Seq<u8>)
    ensures
        ({
            let alphabet = "ABCDEFGHIJKLMNOPQRSTUVWXYZabcdefghijklmnopqrstuvwxyz0123456789+/"@;
            let bits = a * 65536 + b * 256 + c;
            &&& base64_text(Seq::empty()) == Seq::<char>::empty()
            &&& base64_text(seq![a, b, c] + rest) == seq![
                alphabet[bits / 262144],
                alphabet[bits / 4096 % 64],
                alphabet[bits / 64 % 64],
                alphabet[bits % 64],
            ] + base64_text(rest)
            &&& base64_text(seq![a, b]) == seq![
                alphabet[(bits - c) / 262144],
                alphabet[(bits - c) / 4096 % 64],
                alphabet[(bits - c) / 64 % 64],
                '=',
            ]
            &&& base64_text(seq![a]) == seq![
                alphabet[a * 65536 / 262144],
                alphabet[a * 65536 / 4096 % 64],
                '=',
                '=',
            ]
        }),
{
    let bits = a * 65536 + b * 256 + c;
    lemma_alphabet(a as int / 4);
    lemma_alphabet(a as int % 4 * 16 + b as int / 16);
    lemma_alphabet(a as int % 4 * 16);
    lemma_alphabet(b as int % 16 * 4 + c as int / 64);
    lemma_alphabet(b as int % 16 * 4);
    lemma_alphabet(c as int % 64);
    lemma_six_bits(a, b, c);
    lemma_six_bits(a, b, 0);
    lemma_six_bits(a, 0, 0);
    assert(bits - c == a * 65536 + b * 256 + 0);
    assert(a * 65536 == a * 65536 + 0 * 256 + 0);
    let whole = seq![a, b, c] + rest;
    assert(whole.skip(3) == rest);
    assert(whole[0] == a && whole[1] == b && whole[2] == c);
}

/// Bytes are few enough exactly where what they are encoded to is no longer than
/// the longest text that memory can hold.
pub proof fn bytes_fit_where_their_base64_does(bytes: Seq<u8>)
    ensures
        base64_fits(bytes.len()) <==> base64_text(bytes).len() <= isize::MAX,
{
    base64_text_is_nothing_but_base64(bytes);
}

/// The status codes of success are the two hundreds.
pub proof fn success_is_the_two_hundreds(code: u16)
    ensures
        is_success(code) <==> code / 100 == 2,
{
}

/// A status code is a number of three digits.
pub proof fn status_codes_have_three_digits(code: u16)
    ensures
        is_status(code) <==> decimal(code as nat).len() == 3,
{
    reveal_with_fuel(decimal, 6);
    assert(code as nat / 10 / 10 / 10 / 10 < 10);
}

} // verus!
