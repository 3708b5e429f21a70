//! Bytes and text: the ASCII subset of UTF-8, and the bytes that an HTTP
//! header value may hold.
use vstd::prelude::*;
use vstd::utf8::*;

verus! {

/// Every byte is under `0x80`.
pub open spec fn is_ascii_bytes(bytes: Seq<u8>) -> bool {
    forall|i: int| 0 <= i < bytes.len() ==> bytes[i] < 0x80
}

/// The text whose characters are the given bytes, one for one.
pub open spec fn ascii_text(bytes: Seq<u8>) -> Seq<char> {
    Seq::new(bytes.len(), |i: int| bytes[i] as char)
}

/// A byte that a header value may show as text: printable ASCII or a tab.
pub open spec fn is_visible_ascii(byte: u8) -> bool {
    (32 <= byte < 127) || byte == 9
}

/// Every byte is printable ASCII or a tab.
pub open spec fn is_visible_text(bytes: Seq<u8>) -> bool {
    forall|i: int| 0 <= i < bytes.len() ==> is_visible_ascii(#[trigger] bytes[i])
}

/// A character that a header value may show: printable ASCII or a tab.
pub open spec fn is_visible_char(c: char) -> bool {
    (' ' <= c && c < '\u{7f}') || c == '\t'
}

/// Every character is printable ASCII or a tab.
pub open spec fn is_visible_chars(text: Seq<char>) -> bool {
    forall|i: int| 0 <= i < text.len() ==> is_visible_char(#[trigger] text[i])
}

/// A byte that a header value may hold at all: anything but a control
/// character other than the tab.
pub open spec fn is_value_byte(byte: u8) -> bool {
    (byte >= 32 && byte != 127) || byte == 9
}

/// Every byte may stand in a header value.
pub open spec fn is_header_value(bytes: Seq<u8>) -> bool {
    forall|i: int| 0 <= i < bytes.len() ==> is_value_byte(#[trigger] bytes[i])
}

/// ASCII bytes are well-formed UTF-8 and decode to themselves.
pub proof fn lemma_ascii_is_utf8(bytes: Seq<u8>)
    requires
        is_ascii_bytes(bytes),
    ensures
        valid_utf8(bytes),
        decode_utf8(bytes) == ascii_text(bytes),
    decreases bytes.len(),
{
    if bytes.len() == 0 {
        assert(decode_utf8(bytes) =~= ascii_text(bytes));
    } else {
        let first = bytes[0];
        assert(first < 0x80);
        assert((first & 0x7f) == first) by (bit_vector)
            requires
                first < 0x80,
        ;
        let rest = bytes.subrange(1, bytes.len() as int);
        assert(pop_first_scalar(bytes) == rest);
        assert(is_ascii_bytes(rest)) by {
            assert forall|i: int| 0 <= i < rest.len() implies rest[i] < 0x80 by {
                assert(rest[i] == bytes[i + 1]);
            }
        }
        lemma_ascii_is_utf8(rest);
        assert(valid_first_scalar(bytes));
        assert(decode_first_scalar(bytes) == first as u32);
        assert(decode_utf8(bytes) =~= ascii_text(bytes)) by {
            assert(decode_utf8(bytes) == seq![(first as u32) as char] + decode_utf8(rest));
            assert forall|i: int| 0 <= i < bytes.len() implies decode_utf8(bytes)[i]
                == ascii_text(bytes)[i] by {
                if i > 0 {
                    assert(ascii_text(rest)[i - 1] == rest[i - 1] as char);
                }
            }
        }
    }
}

/// Makes text of bytes.
///
/// std's `String::from_utf8`: it gives the string exactly when the bytes are
/// well-formed UTF-8, and the string then holds the characters that the bytes
/// encode.
#[verifier::external_body]
fn string_from_utf8(bytes: Vec<u8>) -> (r: Option<String>)
    ensures
        r is Some <==> valid_utf8(bytes@),
        r matches Some(s) ==> s@ == decode_utf8(bytes@),
{
    String::from_utf8(bytes).ok()
}

/// The text made of the given ASCII bytes.
pub fn ascii_string(bytes: Vec<u8>) -> (s: String)
    requires
        is_ascii_bytes(bytes@),
    ensures
        s@ == ascii_text(bytes@),
{
    proof {
        lemma_ascii_is_utf8(bytes@);
    }
    match string_from_utf8(bytes) {
        Some(s) => s,
        None => String::new(),
    }
}

/// Tells whether every byte is printable ASCII or a tab.
pub fn visible_text(bytes: &Vec<u8>) -> (r: bool)
    ensures
        r == is_visible_text(bytes@),
{
    let mut i: usize = 0;
    while i < bytes.len()
        invariant
            i <= bytes.len(),
            forall|j: int| 0 <= j < i ==> is_visible_ascii(#[trigger] bytes@[j]),
        decreases bytes.len() - i,
    {
        let b: u8 = bytes[i];
        if !((32 <= b && b < 127) || b == 9) {
            return false;
        }
        i = i + 1;
    }
    true
}

} // verus!
