//! Text and its UTF-8 encoding: where one text starts with another.

use vstd::prelude::*;
use vstd::string::*;
use vstd::utf8::*;

verus! {

/// Encoding a concatenation gives the concatenation of the encodings.
pub proof fn lemma_encode_concat(a: Seq<char>, b: Seq<char>)
    ensures
        encode_utf8(a + b) == encode_utf8(a) + encode_utf8(b),
    decreases a.len(),
{
    if a.len() == 0 {
    } else {
        assert((a + b).drop_first() =~= a.drop_first() + b);
        lemma_encode_concat(a.drop_first(), b);
    }
}

/// In the encoding of `a + b`, the encoding of `a` ends on a character
/// boundary.
pub proof fn lemma_boundary_after_prefix(a: Seq<char>, b: Seq<char>)
    ensures
        is_char_boundary(encode_utf8(a + b), encode_utf8(a).len() as int),
    decreases a.len(),
{
    let bytes = encode_utf8(a + b);
    encode_utf8_valid_utf8(a + b);
    if a.len() > 0 {
        let tail = a.drop_first();
        encode_utf8_first_scalar(a + b);
        assert((a + b).drop_first() =~= tail + b);
        assert(pop_first_scalar(bytes) =~= encode_utf8(tail + b));
        lemma_boundary_after_prefix(tail, b);
    }
}

/// Two texts with the same encoding are the same text.
pub proof fn lemma_encode_injective(a: Seq<char>, b: Seq<char>)
    requires
        encode_utf8(a) == encode_utf8(b),
    ensures
        a == b,
{
    encode_utf8_decode_utf8(a);
    encode_utf8_decode_utf8(b);
}

/// Whether two byte slices hold the same bytes.
pub fn bytes_equal(a: &[u8], b: &[u8]) -> (same: bool)
    ensures
        same == (a@ == b@),
{
    if a.len() != b.len() {
        return false;
    }
    let mut i: usize = 0;
    while i < a.len()
        invariant
            a@.len() == b@.len(),
            i <= a@.len(),
            forall|j: int| 0 <= j < i ==> a@[j] == b@[j],
        decreases a@.len() - i,
    {
        if a[i] != b[i] {
            return false;
        }
        i = i + 1;
    }
    assert(a@ =~= b@);
    true
}

/// Removes `prefix` from the front of `input`: the rest of `input` when it
/// starts with `prefix`, and nothing otherwise.
pub fn strip_prefix<'a>(input: &'a str, prefix: &str) -> (rest: Option<&'a str>)
    ensures
        match rest {
            Some(rest) => input@ == prefix@ + rest@,
            None => !prefix@.is_prefix_of(input@),
        },
{
    let needle = prefix.as_bytes();
    let n = needle.len();
    proof {
        encode_utf8_valid_utf8(input@);
        if prefix@.is_prefix_of(input@) {
            let tail = input@.skip(prefix@.len() as int);
            assert(prefix@ + tail =~= input@);
            lemma_encode_concat(prefix@, tail);
            lemma_boundary_after_prefix(prefix@, tail);
            assert(encode_utf8(input@).subrange(0, n as int) =~= encode_utf8(prefix@));
        }
    }
    if input.is_char_boundary(n) {
        let (head, rest) = input.split_at(n);
        proof {
            decode_utf8_split(encode_utf8(input@), n as int);
            encode_utf8_decode_utf8(input@);
            encode_utf8_decode_utf8(head@);
            encode_utf8_decode_utf8(rest@);
        }
        if bytes_equal(head.as_bytes(), needle) {
            proof {
                lemma_encode_injective(head@, prefix@);
            }
            Some(rest)
        } else {
            None
        }
    } else {
        None
    }
}

} // verus!
