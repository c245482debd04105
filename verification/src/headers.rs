//! Response headers as plain values, and the lookups that error mapping performs.
//!
//! Header names are stored lowercase, as `http::HeaderMap` stores them; a name
//! that occurs more than once yields its first value, as `HeaderMap::get` does.

use vstd::prelude::*;

verus! {

/// An ordered list of `(name, value)` response headers.
pub struct HeaderList {
    pub entries: Vec<(String, Vec<u8>)>,
}

impl HeaderList {
    /// Names are stored lowercase, as `http::HeaderMap` stores them.
    pub open spec fn well_formed(&self) -> bool {
        forall|i: int, k: int|
            0 <= i < self.entries@.len() && 0 <= k < self.entries@[i].0@.len()
                ==> !('A' <= #[trigger] self.entries@[i].0@[k] <= 'Z')
    }
}

/// The first value stored under `name`.
pub open spec fn header_lookup(entries: Seq<(String, Vec<u8>)>, name: Seq<char>) -> Option<Seq<u8>>
    decreases entries.len(),
{
    if entries.len() == 0 {
        None
    } else if entries[0].0@ == name {
        Some(entries[0].1@)
    } else {
        header_lookup(entries.drop_first(), name)
    }
}

/// A byte that `http::HeaderValue::to_str` accepts: visible ASCII or a tab.
pub open spec fn visible_ascii(b: u8) -> bool {
    (32 <= b && b < 127) || b == 9
}

pub open spec fn all_visible_ascii(bytes: Seq<u8>) -> bool {
    forall|i: int| 0 <= i < bytes.len() ==> visible_ascii(#[trigger] bytes[i])
}

/// The characters of an ASCII byte string.
pub open spec fn ascii_text(bytes: Seq<u8>) -> Seq<char> {
    Seq::new(bytes.len(), |i: int| bytes[i] as char)
}

/// The header `name` as text: present, and made of visible ASCII only.
pub open spec fn header_text(headers: Option<&HeaderList>, name: Seq<char>) -> Option<Seq<char>> {
    match headers {
        None => None,
        Some(h) => match header_lookup(h.entries@, name) {
            Some(bytes) => if all_visible_ascii(bytes) {
                Some(ascii_text(bytes))
            } else {
                None
            },
            None => None,
        },
    }
}

/// Header `name` as text, when headers were received.
pub open spec fn hdr(headers: Option<HeaderList>, name: Seq<char>) -> Option<Seq<char>> {
    match headers {
        Some(h) => header_text(Some(&h), name),
        None => None,
    }
}

/// Calls `String::from_utf8` on ASCII bytes. Claimed: ASCII is valid UTF-8, so the call
/// succeeds, and each character is the code point of its byte.
#[verifier::external_body]
fn ascii_to_string(bytes: Vec<u8>) -> (r: Option<String>)
    requires
        forall|i: int| 0 <= i < bytes@.len() ==> #[trigger] bytes@[i] < 128,
    ensures
        r is Some,
        r matches Some(s) ==> s@ == ascii_text(bytes@),
{
    String::from_utf8(bytes).ok()
}

pub(crate) proof fn lemma_lookup_skip(s: Seq<(String, Vec<u8>)>, name: Seq<char>, i: int)
    requires
        0 <= i < s.len(),
        s[i].0@ != name,
    ensures
        header_lookup(s.subrange(i, s.len() as int), name) == header_lookup(s.subrange(i + 1, s.len() as int), name),
{
    assert(s.subrange(i, s.len() as int).drop_first() =~= s.subrange(i + 1, s.len() as int));
}

/// The first value of header `name`, if any.
fn header_value<'a>(h: &'a HeaderList, name: &str) -> (r: Option<&'a Vec<u8>>)
    ensures
        match r {
            Some(v) => header_lookup(h.entries@, name@) == Some(v@),
            None => header_lookup(h.entries@, name@) is None,
        },
{
    let n = h.entries.len();
    let mut i: usize = 0;
    assert(h.entries@.subrange(0, n as int) =~= h.entries@);
    while i < n
        invariant
            n == h.entries@.len(),
            i <= n,
            header_lookup(h.entries@, name@) == header_lookup(h.entries@.subrange(i as int, n as int), name@),
        decreases n - i,
    {
        if crate::text::str_eq(h.entries[i].0.as_str(), name) {
            assert(h.entries@.subrange(i as int, n as int)[0] == h.entries@[i as int]);
            return Some(&h.entries[i].1);
        }
        proof {
            lemma_lookup_skip(h.entries@, name@, i as int);
        }
        i = i + 1;
    }
    assert(h.entries@.subrange(n as int, n as int).len() == 0);
    None
}

/// Reads header `name` as text, as `HeaderMap::get(name).and_then(|v| v.to_str().ok())` does.
pub fn extract_header(headers: Option<&HeaderList>, name: &str) -> (r: Option<String>)
    ensures
        match r {
            Some(s) => header_text(headers, name@) == Some(s@),
            None => header_text(headers, name@) is None,
        },
{
    let h = match headers {
        Some(h) => h,
        None => return None,
    };
    let bytes = match header_value(h, name) {
        Some(b) => b,
        None => return None,
    };
    bytes_text(bytes)
}

/// A header value as text: `Some` exactly when every byte is visible ASCII.
pub fn bytes_text(bytes: &Vec<u8>) -> (r: Option<String>)
    ensures
        match r {
            Some(s) => all_visible_ascii(bytes@) && s@ == ascii_text(bytes@),
            None => !all_visible_ascii(bytes@),
        },
{
    let n = bytes.len();
    let mut i: usize = 0;
    while i < n
        invariant
            n == bytes@.len(),
            i <= n,
            forall|k: int| 0 <= k < i ==> visible_ascii(#[trigger] bytes@[k]),
        decreases n - i,
    {
        let b = bytes[i];
        if !((32 <= b && b < 127) || b == 9) {
            assert(!visible_ascii(bytes@[i as int]));
            return None;
        }
        i = i + 1;
    }
    ascii_to_string(bytes.clone())
}

} // verus!
