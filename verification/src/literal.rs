//! Literal URLs: values carried inside an address.
//!
//! A literal URL is `literal://`, a scheme (`string`, `number` or `json`), a
//! colon, and the value percent-encoded.

use crate::text::{chars_of, spec_starts_with, string_of, strip_prefix, substring};
use vstd::prelude::*;
use vstd::string::*;
use vstd::utf8::*;

verus! {

/// What kind of value a literal URL carries.
#[derive(Debug, Clone, Copy, PartialEq, Eq, Structural)]
pub enum LiteralKind {
    Text,
    Number,
    Json,
}

/// A value decoded from, or to be encoded into, a literal URL.
#[derive(Debug, PartialEq, Eq)]
pub struct Literal {
    pub kind: LiteralKind,
    pub value: String,
}

/// The mathematical value of a [`Literal`].
pub struct LiteralView {
    pub kind: LiteralKind,
    pub value: Seq<char>,
}

impl View for Literal {
    type V = LiteralView;

    open spec fn view(&self) -> LiteralView {
        LiteralView { kind: self.kind, value: self.value@ }
    }
}

/// The value of a hexadecimal digit given as an ASCII byte.
pub open spec fn spec_hex_value(b: u8) -> Option<u8> {
    if 48 <= b <= 57 {
        Some((b - 48) as u8)
    } else if 65 <= b <= 70 {
        Some((b - 55) as u8)
    } else if 97 <= b <= 102 {
        Some((b - 87) as u8)
    } else {
        None
    }
}

/// Percent-decoding of bytes: `%` and two hexadecimal digits stand for one
/// byte, every other byte for itself. A `%` that two hexadecimal digits do
/// not follow makes the text undecodable.
pub open spec fn spec_percent_decode(bytes: Seq<u8>) -> Option<Seq<u8>>
    decreases bytes.len(),
{
    if bytes.len() == 0 {
        Some(Seq::empty())
    } else if bytes[0] == 37 {
        if bytes.len() >= 3 && spec_hex_value(bytes[1]) is Some && spec_hex_value(bytes[2]) is Some {
            match spec_percent_decode(bytes.skip(3)) {
                Some(rest) => Some(
                    seq![(spec_hex_value(bytes[1])->0 * 16 + spec_hex_value(bytes[2])->0) as u8]
                        + rest,
                ),
                None => None,
            }
        } else {
            None
        }
    } else {
        match spec_percent_decode(bytes.skip(1)) {
            Some(rest) => Some(seq![bytes[0]] + rest),
            None => None,
        }
    }
}

/// The text that a percent-encoded text stands for: its UTF-8 bytes
/// percent-decoded and read as UTF-8 again. None if a `%` is malformed or the
/// decoded bytes are no UTF-8.
pub open spec fn spec_decode_text(encoded: Seq<char>) -> Option<Seq<char>> {
    match spec_percent_decode(encode_utf8(encoded)) {
        Some(bytes) => if valid_utf8(bytes) {
            Some(decode_utf8(bytes))
        } else {
            None
        },
        None => None,
    }
}

/// The literal that a URL carries, if it is a literal URL that decodes.
pub open spec fn spec_literal(url: Seq<char>) -> Option<LiteralView> {
    if !spec_starts_with(url, "literal://"@) {
        None
    } else {
        let rest = url.skip("literal://"@.len() as int);
        if spec_starts_with(rest, "string:"@) {
            spec_literal_of(LiteralKind::Text, rest.skip("string:"@.len() as int))
        } else if spec_starts_with(rest, "number:"@) {
            spec_literal_of(LiteralKind::Number, rest.skip("number:"@.len() as int))
        } else if spec_starts_with(rest, "json:"@) {
            spec_literal_of(LiteralKind::Json, rest.skip("json:"@.len() as int))
        } else {
            None
        }
    }
}

/// The literal of a kind and a percent-encoded body.
pub open spec fn spec_literal_of(kind: LiteralKind, body: Seq<char>) -> Option<LiteralView> {
    match spec_decode_text(body) {
        Some(value) => Some(LiteralView { kind, value }),
        None => None,
    }
}

/// Reads bytes as UTF-8 text.
///
/// Trusted: wraps `String::from_utf8`, which accepts exactly the byte
/// sequences that are valid UTF-8 and yields the text they encode.
#[verifier::external_body]
fn utf8_to_string(bytes: Vec<u8>) -> (out: Option<String>)
    ensures
        out is Some <==> valid_utf8(bytes@),
        out matches Some(s) ==> s@ == decode_utf8(bytes@),
{
    String::from_utf8(bytes).ok()
}

fn hex_value(b: u8) -> (out: Option<u8>)
    ensures
        out == spec_hex_value(b),
{
    if b >= 48 && b <= 57 {
        Some(b - 48)
    } else if b >= 65 && b <= 70 {
        Some(b - 55)
    } else if b >= 97 && b <= 102 {
        Some(b - 87)
    } else {
        None
    }
}

/// Percent-decodes bytes.
pub fn percent_decode(bytes: &[u8]) -> (out: Option<Vec<u8>>)
    ensures
        out is Some <==> spec_percent_decode(bytes@) is Some,
        out matches Some(decoded) ==> decoded@ == spec_percent_decode(bytes@)->0,
{
    let mut decoded: Vec<u8> = Vec::new();
    let mut i: usize = 0;
    proof {
        assert(bytes@.skip(0) =~= bytes@);
    }
    while i < bytes.len()
        invariant
            i <= bytes.len(),
            spec_percent_decode(bytes@) == (match spec_percent_decode(bytes@.skip(i as int)) {
                Some(rest) => Some(decoded@ + rest),
                None => None,
            }),
        decreases bytes.len() - i,
    {
        let ghost tail = bytes@.skip(i as int);
        let b = bytes[i];
        proof {
            assert(tail[0] == b);
        }
        if b == 37 {
            if bytes.len() - i < 3 {
                return None;
            }
            proof {
                assert(tail[1] == bytes@[i + 1]);
                assert(tail[2] == bytes@[i + 2]);
                assert(tail.skip(3) =~= bytes@.skip(i + 3));
            }
            let hi = match hex_value(bytes[i + 1]) {
                Some(v) => v,
                None => {
                    return None;
                },
            };
            let lo = match hex_value(bytes[i + 2]) {
                Some(v) => v,
                None => {
                    return None;
                },
            };
            let value: u8 = hi * 16 + lo;
            proof {
                match spec_percent_decode(tail.skip(3)) {
                    Some(rest) => {
                        assert(decoded@ + (seq![value] + rest) =~= decoded@.push(value) + rest);
                    },
                    None => {},
                }
            }
            decoded.push(value);
            i += 3;
        } else {
            proof {
                assert(tail.skip(1) =~= bytes@.skip(i + 1));
                match spec_percent_decode(tail.skip(1)) {
                    Some(rest) => {
                        assert(decoded@ + (seq![b] + rest) =~= decoded@.push(b) + rest);
                    },
                    None => {},
                }
            }
            decoded.push(b);
            i += 1;
        }
    }
    proof {
        assert(bytes@.skip(i as int) =~= Seq::<u8>::empty());
        assert(decoded@ + Seq::<u8>::empty() =~= decoded@);
    }
    Some(decoded)
}

/// Decodes a percent-encoded text.
pub fn decode_text(encoded: &str) -> (out: Option<String>)
    ensures
        out is Some <==> spec_decode_text(encoded@) is Some,
        out matches Some(text) ==> text@ == spec_decode_text(encoded@)->0,
{
    match percent_decode(encoded.as_bytes()) {
        Some(bytes) => utf8_to_string(bytes),
        None => None,
    }
}

fn literal_of(kind: LiteralKind, chars: &Vec<char>, from: usize) -> (out: Option<Literal>)
    requires
        from <= chars.len(),
    ensures
        out is Some <==> spec_literal_of(kind, chars@.skip(from as int)) is Some,
        out matches Some(l) ==> l@ == spec_literal_of(kind, chars@.skip(from as int))->0,
{
    let body = substring(chars, from, chars.len());
    assert(chars@.subrange(from as int, chars.len() as int) =~= chars@.skip(from as int));
    match decode_text(body.as_str()) {
        Some(value) => Some(Literal { kind, value }),
        None => None,
    }
}

impl Literal {
    /// A text literal holding `value`.
    pub fn from_string(value: String) -> (out: Literal)
        ensures
            out == (Literal { kind: LiteralKind::Text, value }),
    {
        Literal { kind: LiteralKind::Text, value }
    }

    /// The literal that `url` carries. None if `url` is no literal URL of a
    /// known scheme, or if its body does not decode.
    pub fn from_url(url: &str) -> (out: Option<Literal>)
        ensures
            out is Some <==> spec_literal(url@) is Some,
            out matches Some(l) ==> l@ == spec_literal(url@)->0,
    {
        let chars = chars_of(url);
        assert(chars@.skip(0) =~= url@);
        let rest = match strip_prefix(&chars, 0, "literal://") {
            Some(rest) => rest,
            None => {
                return None;
            },
        };
        proof {
            assert(forall|n: int|
                0 <= n <= chars@.skip(rest as int).len() ==> #[trigger] chars@.skip(
                    rest as int,
                ).skip(n) =~= chars@.skip(rest + n));
        }
        if let Some(body) = strip_prefix(&chars, rest, "string:") {
            return literal_of(LiteralKind::Text, &chars, body);
        }
        if let Some(body) = strip_prefix(&chars, rest, "number:") {
            return literal_of(LiteralKind::Number, &chars, body);
        }
        if let Some(body) = strip_prefix(&chars, rest, "json:") {
            return literal_of(LiteralKind::Json, &chars, body);
        }
        None
    }
}



/// Whether a byte stands for itself in a percent-encoded text: an ASCII
/// letter or digit, `-`, `.`, `_` or `~`.
pub open spec fn spec_is_unreserved(b: u8) -> bool {
    (48 <= b <= 57) || (65 <= b <= 90) || (97 <= b <= 122) || b == 45 || b == 46 || b == 95 || b
        == 126
}

/// The upper-case hexadecimal digit of a value below sixteen, as an ASCII
/// byte.
pub open spec fn spec_hex_digit(v: u8) -> u8 {
    if v < 10 {
        (48 + v) as u8
    } else {
        (55 + v) as u8
    }
}

/// The percent-encoding of one byte.
pub open spec fn spec_encode_byte(b: u8) -> Seq<u8> {
    if spec_is_unreserved(b) {
        seq![b]
    } else {
        seq![37u8, spec_hex_digit(b / 16), spec_hex_digit(b % 16)]
    }
}

/// Percent-encoding of bytes: every byte that does not stand for itself
/// becomes `%` and its two upper-case hexadecimal digits.
pub open spec fn spec_percent_encode(bytes: Seq<u8>) -> Seq<u8>
    decreases bytes.len(),
{
    if bytes.len() == 0 {
        Seq::empty()
    } else {
        spec_encode_byte(bytes[0]) + spec_percent_encode(bytes.skip(1))
    }
}

/// The text whose characters are the given ASCII bytes.
pub open spec fn spec_ascii_text(bytes: Seq<u8>) -> Seq<char> {
    Seq::new(bytes.len(), |i: int| bytes[i] as char)
}

/// The percent-encoding of a text: that of its UTF-8 bytes.
pub open spec fn spec_encode_text(text: Seq<char>) -> Seq<char> {
    spec_ascii_text(spec_percent_encode(encode_utf8(text)))
}

/// The scheme of a kind of literal, with the colon that follows it.
pub open spec fn spec_scheme(kind: LiteralKind) -> Seq<char> {
    match kind {
        LiteralKind::Text => "string:"@,
        LiteralKind::Number => "number:"@,
        LiteralKind::Json => "json:"@,
    }
}

/// The URL that carries a literal.
pub open spec fn spec_literal_url(literal: LiteralView) -> Seq<char> {
    "literal://"@ + spec_scheme(literal.kind) + spec_encode_text(literal.value)
}

fn hex_digit(v: u8) -> (out: u8)
    requires
        v < 16,
    ensures
        out == spec_hex_digit(v),
        out < 128,
{
    if v < 10 {
        48 + v
    } else {
        55 + v
    }
}

fn is_unreserved(b: u8) -> (out: bool)
    ensures
        out == spec_is_unreserved(b),
{
    (48 <= b && b <= 57) || (65 <= b && b <= 90) || (97 <= b && b <= 122) || b == 45 || b == 46
        || b == 95 || b == 126
}

/// Percent-encodes a text.
pub fn encode_text(text: &str) -> (out: String)
    ensures
        out@ == spec_encode_text(text@),
{
    let bytes = text.as_bytes();
    let mut out: Vec<char> = Vec::new();
    let ghost mut done: Seq<u8> = Seq::empty();
    let mut i: usize = 0;
    proof {
        assert(bytes@.skip(0) =~= bytes@);
        assert(done + spec_percent_encode(bytes@) =~= spec_percent_encode(bytes@));
        assert(out@ =~= spec_ascii_text(done));
    }
    while i < bytes.len()
        invariant
            i <= bytes.len(),
            out@ == spec_ascii_text(done),
            spec_percent_encode(bytes@) == done + spec_percent_encode(bytes@.skip(i as int)),
        decreases bytes.len() - i,
    {
        let b = bytes[i];
        let ghost tail = bytes@.skip(i as int);
        proof {
            assert(tail[0] == b);
            assert(tail.skip(1) =~= bytes@.skip(i + 1));
            assert(done + (spec_encode_byte(b) + spec_percent_encode(tail.skip(1))) =~= (done
                + spec_encode_byte(b)) + spec_percent_encode(tail.skip(1)));
        }
        if is_unreserved(b) {
            out.push(b as char);
        } else {
            out.push('%');
            out.push(hex_digit(b / 16) as char);
            out.push(hex_digit(b % 16) as char);
        }
        proof {
            done = done + spec_encode_byte(b);
            assert('%' == 37u8 as char);
            assert(out@ =~= spec_ascii_text(done));
        }
        i += 1;
    }
    proof {
        assert(bytes@.skip(i as int) =~= Seq::<u8>::empty());
        assert(done + Seq::<u8>::empty() =~= done);
    }
    crate::text::string_of(&out)
}

impl Literal {
    /// The URL that carries the literal.
    pub fn to_url(&self) -> (out: String)
        ensures
            out@ == spec_literal_url(self@),
    {
        let mut out = String::from_str("literal://");
        match self.kind {
            LiteralKind::Text => out.append("string:"),
            LiteralKind::Number => out.append("number:"),
            LiteralKind::Json => out.append("json:"),
        }
        let body = encode_text(self.value.as_str());
        out.append(body.as_str());
        out
    }
}

/// A hexadecimal digit reads as the value it was written for.
pub proof fn lemma_hex_round_trip(v: u8)
    requires
        v < 16,
    ensures
        spec_hex_value(spec_hex_digit(v)) == Some(v),
{
}

/// Percent-encoded bytes are ASCII.
pub proof fn lemma_encoded_is_ascii(bytes: Seq<u8>)
    ensures
        forall|i: int|
            0 <= i < spec_percent_encode(bytes).len() ==> #[trigger] spec_percent_encode(bytes)[i]
                < 128,
    decreases bytes.len(),
{
    if bytes.len() > 0 {
        lemma_encoded_is_ascii(bytes.skip(1));
        let head = spec_encode_byte(bytes[0]);
        let rest = spec_percent_encode(bytes.skip(1));
        assert forall|i: int| 0 <= i < (head + rest).len() implies #[trigger] (head + rest)[i]
            < 128 by {
            if i >= head.len() {
                assert((head + rest)[i] == rest[i - head.len()]);
            }
        }
    }
}

/// Percent-decoding undoes percent-encoding.
pub proof fn lemma_decode_encode(bytes: Seq<u8>)
    ensures
        spec_percent_decode(spec_percent_encode(bytes)) == Some(bytes),
    decreases bytes.len(),
{
    if bytes.len() == 0 {
        assert(spec_percent_encode(bytes) =~= Seq::<u8>::empty());
        assert(bytes =~= Seq::<u8>::empty());
    } else {
        let b = bytes[0];
        let rest = spec_percent_encode(bytes.skip(1));
        let whole = spec_percent_encode(bytes);
        lemma_decode_encode(bytes.skip(1));
        assert(seq![b] + bytes.skip(1) =~= bytes);
        if spec_is_unreserved(b) {
            assert(whole[0] == b);
            assert(whole.skip(1) =~= rest);
        } else {
            let hi = (b / 16) as u8;
            let lo = (b % 16) as u8;
            lemma_hex_round_trip(hi);
            lemma_hex_round_trip(lo);
            assert(whole[0] == 37);
            assert(whole[1] == spec_hex_digit(hi));
            assert(whole[2] == spec_hex_digit(lo));
            assert(whole.skip(3) =~= rest);
            assert(hi * 16 + lo == b);
        }
    }
}

/// A literal is read back from the URL that carries it: decoding undoes
/// encoding, for every kind and every value.
pub proof fn law_literal_round_trip(literal: LiteralView)
    ensures
        spec_literal(spec_literal_url(literal)) == Some(literal),
{
    let bytes = encode_utf8(literal.value);
    let encoded = spec_percent_encode(bytes);
    let body = spec_encode_text(literal.value);
    lemma_encoded_is_ascii(bytes);
    assert(is_ascii_chars(body)) by {
        assert forall|i: int| 0 <= i < body.len() implies '\0' <= #[trigger] body[i]
            <= '\u{7f}' by {
            assert(encoded[i] < 128);
        }
    }
    is_ascii_chars_encode_utf8(body);
    assert(encode_utf8(body) =~= encoded) by {
        assert forall|i: int| 0 <= i < encoded.len() implies encode_utf8(body)[i]
            == encoded[i] by {
            assert(encoded[i] < 128);
            assert(body[i] == encoded[i] as char);
            assert(body[i] as u8 == encoded[i]);
        }
    }
    lemma_decode_encode(bytes);
    encode_utf8_valid_utf8(literal.value);
    encode_utf8_decode_utf8(literal.value);
    assert(spec_decode_text(body) == Some(literal.value));

    reveal_strlit("literal://");
    reveal_strlit("string:");
    reveal_strlit("number:");
    reveal_strlit("json:");
    let head = "literal://"@;
    let scheme = spec_scheme(literal.kind);
    let url = spec_literal_url(literal);
    assert(url.take(head.len() as int) =~= head);
    let rest = url.skip(head.len() as int);
    assert(rest =~= scheme + body);
    assert(rest.take(scheme.len() as int) =~= scheme);
    assert(rest.skip(scheme.len() as int) =~= body);
    match literal.kind {
        LiteralKind::Text => {},
        LiteralKind::Number => {
            assert(rest[0] == 'n');
            assert(rest.take("string:"@.len() as int)[0] == 'n');
        },
        LiteralKind::Json => {
            assert(rest[0] == 'j');
            if rest.len() >= "string:"@.len() {
                assert(rest.take("string:"@.len() as int)[0] == 'j');
            }
            if rest.len() >= "number:"@.len() {
                assert(rest.take("number:"@.len() as int)[0] == 'j');
            }
        },
    }
}

} // verus!
