//! Names are byte strings. This module compares, trims and joins them.

use vstd::prelude::*;
use vstd::slice::slice_subrange;
use vstd::string::StringSliceAdditionalSpecFns;

verus! {

/// The bytes of a word of the language, as they stand in source text.
pub open spec fn word(w: &str) -> Seq<u8> {
    w.spec_bytes()
}

/// Whether two byte strings hold the same bytes.
pub fn bytes_eq(a: &[u8], b: &[u8]) -> (same: bool)
    ensures
        same == (a@ == b@),
{
    if a.len() != b.len() {
        return false;
    }
    let mut i: usize = 0;
    while i < a.len()
        invariant
            a@.len() == b@.len(),
            i <= a@.len(),
            forall|j: int| 0 <= j < i ==> a@[j] == b@[j],
        decreases a@.len() - i,
    {
        if a[i] != b[i] {
            return false;
        }
        i += 1;
    }
    assert(a@ =~= b@);
    true
}

/// Whether `bytes` spells the word `w`.
pub fn is_word(bytes: &[u8], w: &str) -> (same: bool)
    ensures
        same == (bytes@ == word(w)),
{
    bytes_eq(bytes, w.as_bytes())
}

/// A fresh vector with the bytes of `bytes`.
pub fn to_vec(bytes: &[u8]) -> (copy: Vec<u8>)
    ensures
        copy@ == bytes@,
{
    let mut copy: Vec<u8> = Vec::new();
    let mut i: usize = 0;
    while i < bytes.len()
        invariant
            i <= bytes@.len(),
            copy@ == bytes@.take(i as int),
        decreases bytes@.len() - i,
    {
        copy.push(bytes[i]);
        assert(bytes@.take(i + 1) =~= bytes@.take(i as int).push(bytes@[i as int]));
        i += 1;
    }
    assert(bytes@.take(i as int) =~= bytes@);
    copy
}

/// Whether `s` has at least two bytes and both its first and its last are `quote`.
pub open spec fn quoted_by(s: Seq<u8>, quote: u8) -> bool {
    s.len() > 1 && s[0] == quote && s[s.len() - 1] == quote
}

/// `s` without one pair of enclosing double quotes, if it has one.
pub open spec fn without_double_quotes(s: Seq<u8>) -> Seq<u8> {
    if quoted_by(s, 0x22) {
        s.subrange(1, s.len() - 1)
    } else {
        s
    }
}

/// `s` without one pair of enclosing quotes, double or single, if it has one.
pub open spec fn without_quotes(s: Seq<u8>) -> Seq<u8> {
    if quoted_by(s, 0x22) || quoted_by(s, 0x27) {
        s.subrange(1, s.len() - 1)
    } else {
        s
    }
}

fn is_quoted_by(bytes: &[u8], quote: u8) -> (r: bool)
    ensures
        r == quoted_by(bytes@, quote),
{
    bytes.len() > 1 && bytes[0] == quote && bytes[bytes.len() - 1] == quote
}

/// Strips one pair of enclosing double quotes.
pub fn trim_double_quotes(bytes: &[u8]) -> (inner: &[u8])
    ensures
        inner@ == without_double_quotes(bytes@),
{
    if is_quoted_by(bytes, 0x22) {
        slice_subrange(bytes, 1, bytes.len() - 1)
    } else {
        bytes
    }
}

/// Strips one pair of enclosing quotes, double or single.
pub fn trim_quotes(bytes: &[u8]) -> (inner: &[u8])
    ensures
        inner@ == without_quotes(bytes@),
{
    if is_quoted_by(bytes, 0x22) || is_quoted_by(bytes, 0x27) {
        slice_subrange(bytes, 1, bytes.len() - 1)
    } else {
        bytes
    }
}

/// The name under which a module's member is known outside the module: the
/// module's name, one space, the member's name.
pub open spec fn with_head(head: Seq<u8>, name: Seq<u8>) -> Seq<u8> {
    head.push(0x20) + name
}

/// Builds `with_head(head, name)`.
pub fn name_with_head(head: &[u8], name: &[u8]) -> (joined: Vec<u8>)
    ensures
        joined@ == with_head(head@, name@),
{
    let mut joined: Vec<u8> = to_vec(head);
    joined.push(0x20);
    let mut i: usize = 0;
    while i < name.len()
        invariant
            i <= name@.len(),
            joined@ == head@.push(0x20) + name@.take(i as int),
        decreases name@.len() - i,
    {
        joined.push(name[i]);
        assert(name@.take(i + 1) =~= name@.take(i as int).push(name@[i as int]));
        assert(head@.push(0x20) + name@.take(i + 1) =~= (head@.push(0x20) + name@.take(
            i as int,
        )).push(name@[i as int]));
        i += 1;
    }
    assert(name@.take(i as int) =~= name@);
    joined
}

/// Whether `bytes` is UTF-8 text.
pub open spec fn is_text(bytes: Seq<u8>) -> bool {
    vstd::utf8::valid_utf8(bytes)
}

/// The bytes of a text in UTF-8.
pub open spec fn text_bytes(text: Seq<char>) -> Seq<u8> {
    vstd::utf8::encode_utf8(text)
}

/// Calls `String::from_utf8` of the standard library. Believed of it, not
/// proved: it gives a string exactly when the bytes are valid UTF-8, and the
/// string then consists of these bytes.
#[verifier::external_body]
pub(crate) fn string_from_utf8(bytes: Vec<u8>) -> (text: Option<String>)
    ensures
        text is Some <==> is_text(bytes@),
        text matches Some(t) ==> text_bytes(t@) == bytes@,
{
    match String::from_utf8(bytes) {
        Ok(text) => Some(text),
        Err(_) => None,
    }
}

} // verus!
