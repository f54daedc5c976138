//! Comparison of strings by their encoded bytes.

use vstd::prelude::*;
use vstd::utf8::*;
use vstd::std_specs::iter::IteratorSpec;

verus! {

/// Two character sequences are equal exactly when their UTF-8 encodings are.
pub proof fn lemma_encoding_injective(a: Seq<char>, b: Seq<char>)
    ensures
        (encode_utf8(a) == encode_utf8(b)) <==> (a == b),
{
    encode_utf8_decode_utf8(a);
    encode_utf8_decode_utf8(b);
}

/// Whether two byte strings are equal. Every position up to the shorter
/// length is visited whatever the contents, so the running time depends on the
/// lengths alone and not on where the first difference lies.
pub fn bytes_equal(a: &[u8], b: &[u8]) -> (same: bool)
    ensures
        same == (a@ == b@),
{
    let n = a.len();
    let m = b.len();
    let limit: usize = if n <= m { n } else { m };
    let mut folded: u8 = 0;
    let mut i: usize = 0;
    while i < limit
        invariant
            i <= limit,
            limit <= a@.len(),
            limit <= b@.len(),
            folded == 0 <==> forall|k: int| 0 <= k < i ==> a@[k] == b@[k],
        decreases limit - i,
    {
        let x = a[i];
        let y = b[i];
        let delta = x ^ y;
        proof {
            assert((x ^ y == 0) <==> x == y) by (bit_vector);
            assert((folded | delta == 0) <==> (folded == 0 && delta == 0)) by (bit_vector);
        }
        folded = folded | delta;
        i = i + 1;
    }
    let same = n == m && folded == 0;
    proof {
        if same {
            assert(a@ =~= b@);
        }
    }
    same
}

/// Whether two strings hold the same characters, decided on their bytes in
/// time that depends on the lengths alone.
pub fn str_equal(a: &str, b: &str) -> (same: bool)
    ensures
        same == (a@ == b@),
{
    proof {
        lemma_encoding_injective(a@, b@);
    }
    bytes_equal(a.as_bytes(), b.as_bytes())
}

/// The characters of a string, as a vector.
pub fn chars_of(s: &str) -> (out: Vec<char>)
    ensures
        out@ == s@,
{
    let mut out: Vec<char> = Vec::new();
    let mut rest = s.chars();
    loop
        invariant
            rest.remaining() == s@.skip(out.len() as int),
            out.len() <= s@.len(),
            out@ == s@.take(out.len() as int),
        ensures
            out@ == s@,
        decreases s@.len() - out.len(),
    {
        match rest.next() {
            Some(c) => {
                out.push(c);
            },
            None => {
                break;
            },
        }
    }
    out
}

/// A copy of a list of strings.
pub fn clone_strings(list: &Vec<String>) -> (copy: Vec<String>)
    ensures
        copy.deep_view() == list.deep_view(),
{
    let mut copy: Vec<String> = Vec::new();
    let mut i: usize = 0;
    while i < list.len()
        invariant
            i <= list.len(),
            copy.len() == i,
            forall|j: int| 0 <= j < i ==> copy[j]@ == list[j]@,
        decreases list.len() - i,
    {
        copy.push(list[i].clone());
        i = i + 1;
    }
    copy
}

/// A copy of an optional string.
pub fn clone_optional(text: &Option<String>) -> (copy: Option<String>)
    ensures
        copy.deep_view() == text.deep_view(),
{
    match text {
        Some(t) => Some(t.clone()),
        None => None,
    }
}

} // verus!
