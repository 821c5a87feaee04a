//! Comparisons of byte strings and texts that the other modules share.

use vstd::prelude::*;
use vstd::string::StringSliceAdditionalSpecFns;

verus! {

/// Whether two byte strings hold the same bytes.
pub fn bytes_eq(a: &[u8], b: &[u8]) -> (same: bool)
    ensures
        same == (a@ == b@),
{
    if a.len() != b.len() {
        return false;
    }
    let mut i: usize = 0;
    while i < a.len()
        invariant
            a@.len() == b@.len(),
            i <= a@.len(),
            forall|k: int| 0 <= k < i ==> a@[k] == b@[k],
        decreases a@.len() - i,
    {
        if a[i] != b[i] {
            return false;
        }
        i += 1;
    }
    assert(a@ =~= b@);
    true
}

/// Whether `bytes` begins with `prefix`.
pub fn bytes_start_with(bytes: &[u8], prefix: &[u8]) -> (begins: bool)
    ensures
        begins == prefix@.is_prefix_of(bytes@),
{
    if prefix.len() > bytes.len() {
        return false;
    }
    let mut i: usize = 0;
    while i < prefix.len()
        invariant
            prefix@.len() <= bytes@.len(),
            i <= prefix@.len(),
            forall|k: int| 0 <= k < i ==> prefix@[k] == bytes@[k],
        decreases prefix@.len() - i,
    {
        if prefix[i] != bytes[i] {
            assert(bytes@.subrange(0, prefix@.len() as int)[i as int] == bytes@[i as int]);
            return false;
        }
        i += 1;
    }
    assert(prefix@ =~= bytes@.subrange(0, prefix@.len() as int));
    true
}

/// Two texts with the same UTF-8 encoding are the same text.
pub proof fn lemma_same_bytes_same_text(a: Seq<char>, b: Seq<char>)
    requires
        vstd::utf8::encode_utf8(a) == vstd::utf8::encode_utf8(b),
    ensures
        a == b,
{
    vstd::utf8::encode_utf8_decode_utf8(a);
    vstd::utf8::encode_utf8_decode_utf8(b);
}

/// Whether two texts are equal.
pub fn str_eq(a: &str, b: &str) -> (same: bool)
    ensures
        same == (a@ == b@),
{
    let same = bytes_eq(a.as_bytes(), b.as_bytes());
    proof {
        if same {
            lemma_same_bytes_same_text(a@, b@);
        }
    }
    same
}

/// Whether the encoding of `text` begins with the encoding of `prefix`.
pub fn str_starts_with(text: &str, prefix: &str) -> (begins: bool)
    ensures
        begins == prefix.spec_bytes().is_prefix_of(text.spec_bytes()),
{
    bytes_start_with(text.as_bytes(), prefix.as_bytes())
}

/// The text that bytes encode, if they are UTF-8.
pub open spec fn decoded(bytes: Seq<u8>) -> Option<Seq<char>> {
    if vstd::utf8::valid_utf8(bytes) {
        Some(vstd::utf8::decode_utf8(bytes))
    } else {
        None
    }
}

/// `String::from_utf8`: the string that holds exactly these bytes, or `None`
/// where the bytes are not UTF-8.
#[verifier::external_body]
fn string_from_utf8(bytes: Vec<u8>) -> (text: Option<String>)
    ensures
        text is Some <==> vstd::utf8::valid_utf8(bytes@),
        text is Some ==> vstd::utf8::encode_utf8(text->0@) == bytes@,
{
    String::from_utf8(bytes).ok()
}

/// Reads bytes as UTF-8 text.
pub fn decode(bytes: &[u8]) -> (text: Option<String>)
    ensures
        match decoded(bytes@) {
            Some(t) => text is Some && text->0@ == t,
            None => text is None,
        },
{
    let text = string_from_utf8(vstd::slice::slice_to_vec(bytes));
    proof {
        if text is Some {
            vstd::utf8::encode_utf8_decode_utf8(text->0@);
        }
    }
    text
}

} // verus!
