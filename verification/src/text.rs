//! The order of text columns: byte by byte over the UTF-8 encoding, a
//! proper prefix before its extensions.

use vstd::prelude::*;
use vstd::utf8::encode_utf8;

verus! {

/// `a` comes no later than `b`, looking only at the bytes from `from` on.
pub open spec fn bytes_le_from(a: Seq<u8>, b: Seq<u8>, from: int) -> bool
    decreases a.len() - from,
{
    if from < 0 || from >= a.len() {
        true
    } else if from >= b.len() {
        false
    } else if a[from] != b[from] {
        a[from] < b[from]
    } else {
        bytes_le_from(a, b, from + 1)
    }
}

/// Lexicographic order on byte strings.
pub open spec fn bytes_le(a: Seq<u8>, b: Seq<u8>) -> bool {
    bytes_le_from(a, b, 0)
}

/// The order of two texts: that of their UTF-8 encodings.
pub open spec fn text_le(a: Seq<char>, b: Seq<char>) -> bool {
    bytes_le(encode_utf8(a), encode_utf8(b))
}

/// Any two byte strings are comparable.
pub proof fn lemma_bytes_le_total(a: Seq<u8>, b: Seq<u8>, from: int)
    requires
        0 <= from,
    ensures
        bytes_le_from(a, b, from) || bytes_le_from(b, a, from),
    decreases a.len() - from,
{
    if from < a.len() && from < b.len() && a[from] == b[from] {
        lemma_bytes_le_total(a, b, from + 1);
    }
}

/// The order is transitive.
pub proof fn lemma_bytes_le_transitive(a: Seq<u8>, b: Seq<u8>, c: Seq<u8>, from: int)
    requires
        0 <= from,
        bytes_le_from(a, b, from),
        bytes_le_from(b, c, from),
    ensures
        bytes_le_from(a, c, from),
    decreases a.len() - from,
{
    if from < a.len() && from < b.len() && from < c.len() && a[from] == b[from] && b[from]
        == c[from] {
        lemma_bytes_le_transitive(a, b, c, from + 1);
    }
}

/// Every text is comparable with every other.
pub proof fn lemma_text_le_total(a: Seq<char>, b: Seq<char>)
    ensures
        text_le(a, b) || text_le(b, a),
{
    lemma_bytes_le_total(encode_utf8(a), encode_utf8(b), 0);
}

/// The order of texts is transitive.
pub proof fn lemma_text_le_transitive(a: Seq<char>, b: Seq<char>, c: Seq<char>)
    requires
        text_le(a, b),
        text_le(b, c),
    ensures
        text_le(a, c),
{
    lemma_bytes_le_transitive(encode_utf8(a), encode_utf8(b), encode_utf8(c), 0);
}

/// Whether `a` comes no later than `b` in the order of text columns.
pub fn text_le_exec(a: &str, b: &str) -> (le: bool)
    ensures
        le == text_le(a@, b@),
{
    let a_bytes = a.as_bytes();
    let b_bytes = b.as_bytes();
    let mut i: usize = 0;
    while i < a_bytes.len()
        invariant
            i <= a_bytes@.len(),
            a_bytes@ == encode_utf8(a@),
            b_bytes@ == encode_utf8(b@),
            bytes_le_from(a_bytes@, b_bytes@, i as int) == text_le(a@, b@),
        decreases a_bytes@.len() - i,
    {
        if i >= b_bytes.len() {
            return false;
        }
        if a_bytes[i] != b_bytes[i] {
            return a_bytes[i] < b_bytes[i];
        }
        i += 1;
    }
    true
}

} // verus!
