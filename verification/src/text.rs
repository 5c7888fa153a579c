//! Comparison and slicing of text.

use vstd::prelude::*;
use vstd::string::*;
use vstd::utf8::*;

verus! {

/// Whether two byte strings hold the same bytes.
pub fn same_bytes(a: &[u8], b: &[u8]) -> (r: bool)
    ensures
        r == (a@ == b@),
{
    if a.len() != b.len() {
        return false;
    }
    let mut i: usize = 0;
    while i < a.len()
        invariant
            a@.len() == b@.len(),
            0 <= i <= a@.len(),
            forall|j: int| 0 <= j < i ==> a@[j] == b@[j],
        decreases a@.len() - i,
    {
        if a[i] != b[i] {
            return false;
        }
        i += 1;
    }
    proof {
        assert(a@ =~= b@);
    }
    true
}

/// Two texts with the same encoding are the same text.
pub proof fn lemma_encoding_is_injective(a: Seq<char>, b: Seq<char>)
    requires
        encode_utf8(a) == encode_utf8(b),
    ensures
        a == b,
{
    encode_utf8_decode_utf8(a);
    encode_utf8_decode_utf8(b);
}

/// Whether two texts are the same, character for character.
pub fn same_text(a: &str, b: &str) -> (r: bool)
    ensures
        r == (a@ == b@),
{
    let r = same_bytes(a.as_bytes(), b.as_bytes());
    proof {
        if r {
            lemma_encoding_is_injective(a@, b@);
        }
    }
    r
}

/// Whether `text` begins with `prefix`.
pub open spec fn begins_with(text: Seq<char>, prefix: Seq<char>) -> bool {
    prefix.len() <= text.len() && text.subrange(0, prefix.len() as int) == prefix
}

/// Tests whether `text` begins with `prefix`; if so, returns what follows it.
pub fn after_prefix<'a>(text: &'a str, prefix: &str) -> (r: Option<&'a str>)
    ensures
        r is Some == begins_with(text@, prefix@),
        r matches Some(rest) ==> rest@ == text@.subrange(prefix@.len() as int, text@.len() as int),
{
    let n = text.unicode_len();
    let p = prefix.unicode_len();
    if p > n {
        return None;
    }
    let head = text.substring_char(0, p);
    if same_text(head, prefix) {
        Some(text.substring_char(p, n))
    } else {
        None
    }
}

} // verus!
