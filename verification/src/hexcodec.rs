//! Hexadecimal text, through the `hex` crate: what it accepts and what
//! it produces, stated exactly.

use vstd::prelude::*;

use crate::text::{char_debug, char_debug_text, concat3, decimal, u64_to_decimal};

verus! {

/// The lowercase hex digit of a value below 16.
pub open spec fn hex_digit(v: nat) -> char {
    if v < 10 {
        crate::text::digit_char(v)
    } else if v == 10 {
        'a'
    } else if v == 11 {
        'b'
    } else if v == 12 {
        'c'
    } else if v == 13 {
        'd'
    } else if v == 14 {
        'e'
    } else {
        'f'
    }
}

/// `hex::encode`: two lowercase digits per byte, high nibble first.
pub open spec fn hex_encode_spec(b: Seq<u8>) -> Seq<char> {
    Seq::new(
        2 * b.len(),
        |i: int|
            if i % 2 == 0 {
                hex_digit((b[i / 2] / 16) as nat)
            } else {
                hex_digit((b[i / 2] % 16) as nat)
            },
    )
}

/// The value of one hex digit byte; both cases are accepted.
pub open spec fn hex_value(c: u8) -> Option<nat> {
    if 48 <= c <= 57 {
        Some((c - 48) as nat)
    } else if 97 <= c <= 102 {
        Some((c - 87) as nat)
    } else if 65 <= c <= 70 {
        Some((c - 55) as nat)
    } else {
        None
    }
}

/// The first position at or after `i` that holds no hex digit.
pub open spec fn first_non_hex(b: Seq<u8>, i: int) -> Option<int>
    decreases b.len() - i,
{
    if i < 0 || i >= b.len() {
        None
    } else if hex_value(b[i]) is None {
        Some(i)
    } else {
        first_non_hex(b, i + 1)
    }
}

/// The errors of `hex::FromHexError`.
#[derive(Debug, Clone, Copy, PartialEq, Eq, Structural)]
pub enum HexError {
    InvalidHexCharacter { c: char, index: usize },
    OddLength,
    InvalidStringLength,
}

/// `hex::decode` of a byte string: an odd length is refused first, then
/// the first byte that is no hex digit (reported as the `char` of that
/// byte, with its position); otherwise each pair of digits is one byte.
pub open spec fn hex_decode_spec(b: Seq<u8>) -> Result<Seq<u8>, HexError> {
    if b.len() % 2 != 0 {
        Err(HexError::OddLength)
    } else if let Some(i) = first_non_hex(b, 0) {
        Err(HexError::InvalidHexCharacter { c: b[i] as char, index: i as usize })
    } else {
        Ok(
            Seq::new(
                b.len() / 2,
                |k: int|
                    (hex_value(b[2 * k]).unwrap() * 16 + hex_value(b[2 * k + 1]).unwrap()) as u8,
            ),
        )
    }
}

/// `hex::decode` of a string, which reads its UTF-8 bytes.
pub open spec fn hex_decode_str(s: Seq<char>) -> Result<Seq<u8>, HexError> {
    hex_decode_spec(vstd::utf8::encode_utf8(s))
}

/// `hex::encode`: lowercase hex text of `data`, two digits per byte.
#[verifier::external_body]
pub(crate) fn hex_encode(data: &[u8]) -> (r: String)
    ensures
        r@ == hex_encode_spec(data@),
{
    hex::encode(data)
}

/// `hex::decode`: the bytes that `s` spells in hex, or the crate's error,
/// carried over variant by variant.
#[verifier::external_body]
pub(crate) fn hex_decode(s: &str) -> (r: Result<Vec<u8>, HexError>)
    ensures
        match r {
            Ok(v) => hex_decode_str(s@) == Ok::<Seq<u8>, HexError>(v@),
            Err(e) => hex_decode_str(s@) == Err::<Seq<u8>, HexError>(e),
        },
{
    match hex::decode(s) {
        Ok(v) => Ok(v),
        Err(hex::FromHexError::InvalidHexCharacter { c, index }) => Err(
            HexError::InvalidHexCharacter { c, index },
        ),
        Err(hex::FromHexError::OddLength) => Err(HexError::OddLength),
        Err(hex::FromHexError::InvalidStringLength) => Err(HexError::InvalidStringLength),
    }
}

/// What `hex::FromHexError` displays.
pub open spec fn hex_error_text(e: HexError) -> Seq<char> {
    match e {
        HexError::InvalidHexCharacter { c, index } => "Invalid character "@ + char_debug_text(c)
            + " at position "@ + decimal(index as nat),
        HexError::OddLength => "Odd number of digits"@,
        HexError::InvalidStringLength => "Invalid string length"@,
    }
}

impl HexError {
    /// The error's display text.
    pub fn text(&self) -> (t: String)
        ensures
            t@ == hex_error_text(*self),
    {
        match self {
            HexError::InvalidHexCharacter { c, index } => {
                let cd = char_debug(*c);
                let ix = u64_to_decimal(*index as u64);
                let mut t = concat3("Invalid character ", cd.as_str(), " at position ");
                t.append(ix.as_str());
                t
            },
            HexError::OddLength => String::from_str("Odd number of digits"),
            HexError::InvalidStringLength => String::from_str("Invalid string length"),
        }
    }
}

proof fn lemma_hex_digit_value(v: nat)
    requires
        v < 16,
    ensures
        '\0' <= hex_digit(v) <= '\u{7f}',
        hex_value(hex_digit(v) as u8) == Some(v),
        hex_digit(v) != 'x',
{
}

proof fn lemma_no_non_hex_from(b: Seq<u8>, i: int)
    requires
        0 <= i <= b.len(),
        forall|j: int| i <= j < b.len() ==> hex_value(#[trigger] b[j]) is Some,
    ensures
        first_non_hex(b, i) is None,
    decreases b.len() - i,
{
    if i < b.len() {
        lemma_no_non_hex_from(b, i + 1);
    }
}

/// Lowercase hex text is ASCII.
pub proof fn lemma_hex_encode_ascii(b: Seq<u8>)
    ensures
        vstd::utf8::is_ascii_chars(hex_encode_spec(b)),
{
    let h = hex_encode_spec(b);
    assert forall|i: int| 0 <= i < h.len() implies '\0' <= #[trigger] h[i] <= '\u{7f}' by {
        lemma_hex_digit_value((b[i / 2] / 16) as nat);
        lemma_hex_digit_value((b[i / 2] % 16) as nat);
    }
}

/// Decoding what `hex::encode` wrote gives the bytes back.
pub proof fn lemma_hex_roundtrip(b: Seq<u8>)
    ensures
        hex_decode_str(hex_encode_spec(b)) == Ok::<Seq<u8>, HexError>(b),
{
    let h = hex_encode_spec(b);
    lemma_hex_encode_ascii(b);
    vstd::utf8::is_ascii_chars_encode_utf8(h);
    let bytes = vstd::utf8::encode_utf8(h);
    assert(bytes.len() == 2 * b.len());
    assert forall|j: int| 0 <= j < bytes.len() implies hex_value(#[trigger] bytes[j]) is Some by {
        assert(bytes[j] == h[j] as u8);
        lemma_hex_digit_value((b[j / 2] / 16) as nat);
        lemma_hex_digit_value((b[j / 2] % 16) as nat);
    }
    lemma_no_non_hex_from(bytes, 0);
    let d = Seq::new(
        bytes.len() / 2,
        |k: int| (hex_value(bytes[2 * k]).unwrap() * 16 + hex_value(bytes[2 * k + 1]).unwrap()) as u8,
    );
    assert forall|k: int| 0 <= k < b.len() implies #[trigger] d[k] == b[k] by {
        assert(bytes[2 * k] == h[2 * k] as u8);
        assert(bytes[2 * k + 1] == h[2 * k + 1] as u8);
        assert((2 * k) / 2 == k);
        assert((2 * k + 1) / 2 == k);
        assert((2 * k) % 2 == 0);
        assert((2 * k + 1) % 2 == 1);
        lemma_hex_digit_value((b[k] / 16) as nat);
        lemma_hex_digit_value((b[k] % 16) as nat);
        assert((b[k] / 16) * 16 + b[k] % 16 == b[k]);
    }
    assert(d =~= b);
}

/// Lowercase hex text: an even number of `0-9a-f` characters, the only
/// spelling `hex::encode` writes.
pub open spec fn is_lower_hex(s: Seq<char>) -> bool {
    s.len() % 2 == 0 && forall|i: int|
        0 <= i < s.len() ==> (('0' <= #[trigger] s[i] && s[i] <= '9') || ('a' <= s[i] && s[i] <= 'f'))
}

proof fn lemma_lower_hex_char(c: char)
    requires
        ('0' <= c && c <= '9') || ('a' <= c && c <= 'f'),
    ensures
        '\0' <= c <= '\u{7f}',
        hex_value(c as u8) is Some,
        hex_value(c as u8)->Some_0 < 16,
        hex_digit(hex_value(c as u8)->Some_0) == c,
{
    assert(c as u32 as u8 == c as u8);
    if c == '0' {} else if c == '1' {} else if c == '2' {} else if c == '3' {} else if c == '4' {}
    else if c == '5' {} else if c == '6' {} else if c == '7' {} else if c == '8' {} else if c == '9' {}
    else if c == 'a' {} else if c == 'b' {} else if c == 'c' {} else if c == 'd' {} else if c == 'e' {}
    else if c == 'f' {} else {
        assert(false) by {
            assert(('0' as u32) <= (c as u32) <= ('9' as u32) || ('a' as u32) <= (c as u32) <= ('f' as u32));
        }
    }
}

/// Lowercase hex text decodes, and `hex::encode` of what it decodes to
/// spells it again: it is the one canonical spelling of those bytes.
pub proof fn lemma_lower_hex_canonical(s: Seq<char>)
    requires
        is_lower_hex(s),
    ensures
        hex_decode_str(s) is Ok,
        hex_encode_spec(hex_decode_str(s)->Ok_0) == s,
{
    assert(vstd::utf8::is_ascii_chars(s)) by {
        assert forall|i: int| 0 <= i < s.len() implies '\0' <= #[trigger] s[i] <= '\u{7f}' by {
            lemma_lower_hex_char(s[i]);
        }
    }
    vstd::utf8::is_ascii_chars_encode_utf8(s);
    let bytes = vstd::utf8::encode_utf8(s);
    assert forall|j: int| 0 <= j < bytes.len() implies hex_value(#[trigger] bytes[j]) is Some by {
        assert(bytes[j] == s[j] as u8);
        lemma_lower_hex_char(s[j]);
    }
    lemma_no_non_hex_from(bytes, 0);
    let b = hex_decode_str(s)->Ok_0;
    let h = hex_encode_spec(b);
    assert forall|i: int| 0 <= i < s.len() implies #[trigger] h[i] == s[i] by {
        let k = i / 2;
        assert(bytes[2 * k] == s[2 * k] as u8);
        assert(bytes[2 * k + 1] == s[2 * k + 1] as u8);
        lemma_lower_hex_char(s[2 * k]);
        lemma_lower_hex_char(s[2 * k + 1]);
        let hi = hex_value(bytes[2 * k])->Some_0;
        let lo = hex_value(bytes[2 * k + 1])->Some_0;
        assert(b[k] == (hi * 16 + lo) as u8);
        assert((hi * 16 + lo) / 16 == hi);
        assert((hi * 16 + lo) % 16 == lo);
        if i % 2 == 0 {
            assert(i == 2 * k);
        } else {
            assert(i == 2 * k + 1);
        }
    }
    assert(h =~= s);
}

} // verus!
