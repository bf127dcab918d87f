//! The `application/x-www-form-urlencoded` serialization that the desktop-app
//! URL relies on, stated as a specification, together with the trusted call
//! into the `form_urlencoded` serializer of the `url` crate.

use vstd::prelude::*;
use vstd::utf8::{encode_utf8, is_ascii_chars};

verus! {

/// Bytes that the byte serializer copies unchanged: `*`, `-`, `.`, `_`,
/// ASCII digits and ASCII letters.
pub open spec fn byte_serialized_unchanged(b: u8) -> bool {
    ||| b == 0x2a
    ||| b == 0x2d
    ||| b == 0x2e
    ||| 0x30 <= b <= 0x39
    ||| 0x41 <= b <= 0x5a
    ||| b == 0x5f
    ||| 0x61 <= b <= 0x7a
}

/// Upper-case hexadecimal digit for a value below 16.
pub open spec fn hex_digit_upper(n: int) -> char {
    if n < 10 {
        (48 + n) as char
    } else {
        (55 + n) as char
    }
}

/// The characters that one input byte becomes: itself when unchanged, `+`
/// for a space, and `%XX` with upper-case hex digits otherwise.
pub open spec fn form_urlencode_byte(b: u8) -> Seq<char> {
    if byte_serialized_unchanged(b) {
        seq![b as char]
    } else if b == 0x20 {
        seq!['+']
    } else {
        seq!['%', hex_digit_upper((b / 16) as int), hex_digit_upper((b % 16) as int)]
    }
}

/// The `application/x-www-form-urlencoded` byte serializer, byte by byte.
pub open spec fn form_urlencode(bytes: Seq<u8>) -> Seq<char>
    decreases bytes.len(),
{
    if bytes.len() == 0 {
        Seq::empty()
    } else {
        form_urlencode_byte(bytes[0]) + form_urlencode(bytes.drop_first())
    }
}

/// One serialized `name=value` pair, both sides encoded from their UTF-8 bytes.
pub open spec fn form_urlencoded_pair(name: Seq<char>, value: Seq<char>) -> Seq<char> {
    form_urlencode(encode_utf8(name)) + seq!['='] + form_urlencode(encode_utf8(value))
}

/// Serializes a single `name=value` pair with
/// `url::form_urlencoded::Serializer` started on an empty `String`
/// (`Serializer::new`, then `append_pair`, then `finish`).
///
/// Trusted: the serializer's source appends no separator before the first
/// pair, encodes the UTF-8 bytes of name and value with its byte serializer
/// (copy `*-._`, digits and letters, a space becomes `+`, every other byte
/// `%XX` in upper case) and joins them with `=`; the contract states that.
#[verifier::external_body]
pub(crate) fn serialize_urlencoded_pair(name: &str, value: &str) -> (res: String)
    ensures
        res@ == form_urlencoded_pair(name@, value@),
{
    let mut serializer = url::form_urlencoded::Serializer::new(String::new());
    serializer.append_pair(name, value);
    serializer.finish()
}

/// Characters that the serializer can emit in an encoded name or value:
/// ASCII letters and digits and `*`, `-`, `.`, `_`, `+`, `%`.
pub open spec fn is_form_urlencoded_char(c: char) -> bool {
    ||| 'a' <= c <= 'z'
    ||| 'A' <= c <= 'Z'
    ||| '0' <= c <= '9'
    ||| c == '*'
    ||| c == '-'
    ||| c == '.'
    ||| c == '_'
    ||| c == '+'
    ||| c == '%'
}

proof fn lemma_encode_byte_alphabet(b: u8)
    ensures
        forall|i: int|
            0 <= i < form_urlencode_byte(b).len() ==> is_form_urlencoded_char(
                #[trigger] form_urlencode_byte(b)[i],
            ),
{
    if !byte_serialized_unchanged(b) && b != 0x20 {
        let hi = (b / 16) as int;
        let lo = (b % 16) as int;
        assert(is_form_urlencoded_char(hex_digit_upper(hi)));
        assert(is_form_urlencoded_char(hex_digit_upper(lo)));
    }
}

/// Every character of a form-urlencoded text is an ASCII letter or digit
/// or one of `*-._+%`; in particular it holds no `&` and no `=`, the
/// separators of the form-urlencoded syntax.
pub proof fn lemma_form_urlencode_alphabet(bytes: Seq<u8>)
    ensures
        forall|i: int|
            0 <= i < form_urlencode(bytes).len() ==> is_form_urlencoded_char(
                #[trigger] form_urlencode(bytes)[i],
            ),
    decreases bytes.len(),
{
    if bytes.len() > 0 {
        lemma_form_urlencode_alphabet(bytes.drop_first());
        lemma_encode_byte_alphabet(bytes[0]);
        let e = form_urlencode_byte(bytes[0]);
        let r = form_urlencode(bytes.drop_first());
        assert forall|i: int| 0 <= i < form_urlencode(bytes).len() implies is_form_urlencoded_char(
            #[trigger] form_urlencode(bytes)[i],
        ) by {
            if i < e.len() {
                assert(form_urlencode(bytes)[i] == e[i]);
            } else {
                assert(form_urlencode(bytes)[i] == r[i - e.len()]);
            }
        }
    }
}

/// The bytes of an ASCII text: each character's code.
pub open spec fn ascii_bytes(s: Seq<char>) -> Seq<u8> {
    s.map_values(|c: char| c as u8)
}

/// `b` is an ASCII hexadecimal digit, in either case.
pub open spec fn is_hex_byte(b: u8) -> bool {
    ||| 0x30 <= b <= 0x39
    ||| 0x41 <= b <= 0x46
    ||| 0x61 <= b <= 0x66
}

/// Value of an ASCII hexadecimal digit.
pub open spec fn hex_byte_value(b: u8) -> int {
    if b <= 0x39 {
        b - 0x30
    } else if b <= 0x46 {
        b - 0x37
    } else {
        b - 0x57
    }
}

/// The decoding of a name or value in `application/x-www-form-urlencoded`
/// syntax (WHATWG URL standard): `+` is a space, `%` followed by two hex
/// digits is the byte they spell, every other byte stands for itself.
pub open spec fn form_urldecode_bytes(s: Seq<u8>) -> Seq<u8>
    decreases s.len(),
{
    if s.len() == 0 {
        Seq::empty()
    } else if s[0] == 0x2b {
        seq![0x20u8] + form_urldecode_bytes(s.drop_first())
    } else if s[0] == 0x25 && s.len() >= 3 && is_hex_byte(s[1]) && is_hex_byte(s[2]) {
        seq![(hex_byte_value(s[1]) * 16 + hex_byte_value(s[2])) as u8] + form_urldecode_bytes(
            s.skip(3),
        )
    } else {
        seq![s[0]] + form_urldecode_bytes(s.drop_first())
    }
}

/// Index of the first `b` in `s`.
pub open spec fn first_index_of(s: Seq<u8>, b: u8) -> Option<int>
    decreases s.len(),
{
    if s.len() == 0 {
        None
    } else if s[0] == b {
        Some(0)
    } else {
        match first_index_of(s.drop_first(), b) {
            Some(i) => Some(i + 1),
            None => None,
        }
    }
}

/// `first_index_of` finds the first occurrence, or tells that there is none.
pub proof fn lemma_first_index_of(s: Seq<u8>, b: u8)
    ensures
        match first_index_of(s, b) {
            Some(i) => 0 <= i < s.len() && s[i] == b && forall|j: int| 0 <= j < i ==> s[j] != b,
            None => forall|j: int| 0 <= j < s.len() ==> s[j] != b,
        },
    decreases s.len(),
{
    if s.len() > 0 {
        lemma_first_index_of(s.drop_first(), b);
        if s[0] != b {
            match first_index_of(s.drop_first(), b) {
                Some(i) => {
                    assert forall|j: int| 0 <= j < i + 1 implies s[j] != b by {
                        if j > 0 {
                            assert(s[j] == s.drop_first()[j - 1]);
                        }
                    }
                },
                None => {
                    assert forall|j: int| 0 <= j < s.len() implies s[j] != b by {
                        if j > 0 {
                            assert(s[j] == s.drop_first()[j - 1]);
                        }
                    }
                },
            }
        }
    }
}

/// One `name=value` sequence split at its first `=` (a sequence without
/// `=` is a name with an empty value), both sides decoded.
pub open spec fn form_urlencoded_parse_pair(sequence: Seq<u8>) -> (Seq<u8>, Seq<u8>) {
    match first_index_of(sequence, 0x3d) {
        Some(i) => (
            form_urldecode_bytes(sequence.take(i)),
            form_urldecode_bytes(sequence.skip(i + 1)),
        ),
        None => (form_urldecode_bytes(sequence), Seq::empty()),
    }
}

/// The `application/x-www-form-urlencoded` parser (WHATWG URL standard),
/// up to the final UTF-8 decoding: the input is split at each `&`, empty
/// sequences are skipped, and each other sequence gives one decoded
/// name/value pair of bytes.
pub open spec fn form_urlencoded_parse(input: Seq<u8>) -> Seq<(Seq<u8>, Seq<u8>)>
    decreases input.len(),
{
    if input.len() == 0 {
        Seq::empty()
    } else {
        proof {
            lemma_first_index_of(input, 0x26);
        }
        match first_index_of(input, 0x26) {
            Some(i) => {
                let rest = form_urlencoded_parse(input.skip(i + 1));
                if i == 0 {
                    rest
                } else {
                    seq![form_urlencoded_parse_pair(input.take(i))] + rest
                }
            },
            None => seq![form_urlencoded_parse_pair(input)],
        }
    }
}

proof fn lemma_decode_encode_byte(b: u8, rest: Seq<u8>)
    ensures
        form_urldecode_bytes(ascii_bytes(form_urlencode_byte(b)) + rest) == seq![b]
            + form_urldecode_bytes(rest),
{
    let e = ascii_bytes(form_urlencode_byte(b));
    let s = e + rest;
    if byte_serialized_unchanged(b) {
        assert(s[0] == b);
        assert(s.drop_first() =~= rest);
    } else if b == 0x20 {
        assert(s[0] == 0x2b);
        assert(s.drop_first() =~= rest);
    } else {
        let hi = (b / 16) as int;
        let lo = (b % 16) as int;
        assert(s[0] == 0x25);
        assert(s[1] == hex_digit_upper(hi) as u8);
        assert(s[2] == hex_digit_upper(lo) as u8);
        assert(is_hex_byte(s[1]) && hex_byte_value(s[1]) == hi);
        assert(is_hex_byte(s[2]) && hex_byte_value(s[2]) == lo);
        assert(s.skip(3) =~= rest);
        assert(hi * 16 + lo == b);
    }
}

/// Decoding the bytes of a form-urlencoded text gives back what was
/// encoded.
pub proof fn lemma_form_urldecode_encode(bytes: Seq<u8>)
    ensures
        form_urldecode_bytes(ascii_bytes(form_urlencode(bytes))) == bytes,
    decreases bytes.len(),
{
    if bytes.len() > 0 {
        let e = form_urlencode_byte(bytes[0]);
        let r = form_urlencode(bytes.drop_first());
        assert(ascii_bytes(e + r) =~= ascii_bytes(e) + ascii_bytes(r));
        lemma_form_urldecode_encode(bytes.drop_first());
        lemma_decode_encode_byte(bytes[0], ascii_bytes(r));
        assert(seq![bytes[0]] + bytes.drop_first() =~= bytes);
    }
}

/// A serialized pair is ASCII, and the form-urlencoded parser reads its
/// UTF-8 bytes as exactly one pair: the UTF-8 bytes of the name and of the
/// value. No `&` or `=` of the name or value can leak into the syntax.
pub proof fn lemma_form_urlencoded_pair_parses(name: Seq<char>, value: Seq<char>)
    ensures
        is_ascii_chars(form_urlencoded_pair(name, value)),
        form_urlencoded_parse(encode_utf8(form_urlencoded_pair(name, value))) == seq![
            (encode_utf8(name), encode_utf8(value)),
        ],
{
    let en = form_urlencode(encode_utf8(name));
    let ev = form_urlencode(encode_utf8(value));
    let p = form_urlencoded_pair(name, value);
    lemma_form_urlencode_alphabet(encode_utf8(name));
    lemma_form_urlencode_alphabet(encode_utf8(value));
    assert forall|i: int| 0 <= i < p.len() implies #[trigger] p[i] == '=' || is_form_urlencoded_char(
        p[i],
    ) by {
        if i < en.len() {
            assert(p[i] == en[i]);
        } else if i > en.len() {
            assert(p[i] == ev[i - en.len() - 1]);
        }
    }
    assert(is_ascii_chars(p));
    vstd::utf8::is_ascii_chars_encode_utf8(p);
    let q = encode_utf8(p);
    assert(q =~= ascii_bytes(p));
    assert(ascii_bytes(p) =~= ascii_bytes(en) + seq![0x3du8] + ascii_bytes(ev));
    lemma_first_index_of(q, 0x26);
    if first_index_of(q, 0x26) is Some {
        let i = first_index_of(q, 0x26)->Some_0;
        assert(q[i] == p[i] as u8);
        assert(false);
    }
    lemma_first_index_of(q, 0x3d);
    assert(q[en.len() as int] == 0x3d);
    let k = first_index_of(q, 0x3d)->Some_0;
    if k < en.len() {
        assert(q[k] == en[k] as u8);
        assert(is_form_urlencoded_char(en[k]));
        assert(false);
    }
    assert(k == en.len());
    assert(q.take(k) =~= ascii_bytes(en));
    assert(q.skip(k + 1) =~= ascii_bytes(ev));
    lemma_form_urldecode_encode(encode_utf8(name));
    lemma_form_urldecode_encode(encode_utf8(value));
}

} // verus!
