//! Header fields as they stand in a message: a name and the bytes of a
//! value.
use crate::text::{ascii_string, ascii_text, is_visible_text, visible_text};
use vstd::prelude::*;
use vstd::string::*;
use vstd::utf8::{encode_utf8, is_ascii_chars, is_ascii_chars_encode_utf8};

verus! {

/// One header field. The name is matched without regard to case; the value
/// may hold any bytes.
#[derive(Clone, Debug, PartialEq, Eq)]
pub struct Header {
    pub name: Vec<u8>,
    pub value: Vec<u8>,
}

/// The lower-case form of an ASCII letter, and any other byte unchanged.
pub open spec fn lowercase(byte: u8) -> u8 {
    if 65 <= byte <= 90 {
        (byte + 32) as u8
    } else {
        byte
    }
}

/// `name` spells `wanted`, which is in lower case, in whatever case.
pub open spec fn same_name(name: Seq<u8>, wanted: Seq<char>) -> bool {
    &&& name.len() == wanted.len()
    &&& forall|i: int| 0 <= i < name.len() ==> lowercase(#[trigger] name[i]) == wanted[i] as u8
}

/// The value of the first field named `wanted`, if there is one.
pub open spec fn lookup(headers: Seq<Header>, wanted: Seq<char>) -> Option<Seq<u8>>
    decreases headers.len(),
{
    if headers.len() == 0 {
        None
    } else if same_name(headers[0].name@, wanted) {
        Some(headers[0].value@)
    } else {
        lookup(headers.drop_first(), wanted)
    }
}

impl Header {
    /// The field with the given name and a value of text.
    pub fn new(name: &str, value: &str) -> (r: Header)
        ensures
            r.name@ == name.spec_bytes(),
            r.value@ == value.spec_bytes(),
    {
        Header { name: name.as_bytes_vec(), value: value.as_bytes_vec() }
    }

    /// Tells whether the field is named `wanted`, a lower-case ASCII name.
    pub fn is_named(&self, wanted: &str) -> (r: bool)
        requires
            is_ascii_chars(wanted@),
        ensures
            r == same_name(self.name@, wanted@),
    {
        proof {
            is_ascii_chars_encode_utf8(wanted@);
        }
        let bytes = wanted.as_bytes();
        if self.name.len() != bytes.len() {
            return false;
        }
        let mut i: usize = 0;
        while i < self.name.len()
            invariant
                i <= self.name.len(),
                self.name.len() == bytes.len(),
                bytes@ == wanted.spec_bytes(),
                is_ascii_chars(wanted@),
                bytes@.len() == wanted@.len(),
                forall|k: int| 0 <= k < wanted@.len() ==> wanted@[k] as u8 == #[trigger] bytes@[k],
                forall|j: int|
                    0 <= j < i ==> lowercase(#[trigger] self.name@[j]) == wanted@[j] as u8,
            decreases self.name.len() - i,
        {
            let b: u8 = self.name[i];
            let lower: u8 = if 65 <= b && b <= 90 {
                b + 32
            } else {
                b
            };
            if lower != bytes[i] {
                assert(lowercase(self.name@[i as int]) != wanted@[i as int] as u8);
                return false;
            }
            i = i + 1;
        }
        true
    }
}

/// Looks a field up by its name, a lower-case ASCII name: the value of the
/// first field so named.
pub fn find<'a>(headers: &'a Vec<Header>, wanted: &str) -> (r: Option<&'a Vec<u8>>)
    requires
        is_ascii_chars(wanted@),
    ensures
        match r {
            Some(value) => lookup(headers@, wanted@) == Some(value@),
            None => lookup(headers@, wanted@) is None,
        },
{
    let mut i: usize = 0;
    assert(headers@.subrange(0, headers.len() as int) =~= headers@);
    while i < headers.len()
        invariant
            i <= headers.len(),
            is_ascii_chars(wanted@),
            lookup(headers@, wanted@) == lookup(headers@.subrange(i as int, headers.len() as int), wanted@),
        decreases headers.len() - i,
    {
        let ghost rest = headers@.subrange(i as int, headers.len() as int);
        assert(rest[0] == headers@[i as int]);
        assert(rest.drop_first() =~= headers@.subrange(i + 1, headers.len() as int));
        if headers[i].is_named(wanted) {
            return Some(&headers[i].value);
        }
        i = i + 1;
    }
    assert(headers@.subrange(i as int, headers.len() as int).len() == 0);
    None
}

/// The text of a value that is visible ASCII.
pub fn visible_string(value: &Vec<u8>) -> (r: Option<String>)
    ensures
        r is Some <==> is_visible_text(value@),
        r matches Some(s) ==> s@ == ascii_text(value@),
{
    if visible_text(value) {
        Some(ascii_string(value.clone()))
    } else {
        None
    }
}

} // verus!
