//! Tokens: a first character of one kind and a run of characters of another.

use crate::parser::ParseResult;
use crate::text::{lemma_boundary_after_prefix, lemma_encode_concat, lemma_encode_injective};
use vstd::prelude::*;
use vstd::std_specs::iter::IteratorSpec;
use vstd::string::*;
use vstd::utf8::*;

verus! {

/// Trusted, of `String::push`: it appends the character to the end of the
/// string and leaves what the string held before as it was.
pub assume_specification[ String::push ](s: &mut String, ch: char)
    ensures
        final(s)@ == old(s)@.push(ch),
;

/// Whether the first `n` characters of `input` are a token: one character that
/// `head` accepts, then characters that `tail` accepts, up to the end of the
/// input or a character that `tail` rejects.
pub open spec fn token_ends_at<H: Fn(char) -> bool, T: Fn(char) -> bool>(
    input: Seq<char>,
    head: H,
    tail: T,
    n: int,
) -> bool {
    &&& 1 <= n <= input.len()
    &&& call_ensures(head, (input[0],), true)
    &&& forall|i: int| 1 <= i < n ==> call_ensures(tail, (#[trigger] input[i],), true)
    &&& n < input.len() ==> call_ensures(tail, (input[n],), false)
}

/// What taking a token from the front of `input` gives: the token and the
/// text after it, or a failure that leaves the whole input when the input is
/// empty or `head` rejects its first character.
pub open spec fn token_ensures<'a, H: Fn(char) -> bool, T: Fn(char) -> bool>(
    input: Seq<char>,
    head: H,
    tail: T,
    result: ParseResult<'a, String>,
) -> bool {
    match result {
        Ok((rest, text)) => {
            &&& token_ends_at(input, head, tail, text@.len() as int)
            &&& text@ == input.take(text@.len() as int)
            &&& rest@ == input.skip(text@.len() as int)
        },
        Err(rest) => {
            &&& rest@ == input
            &&& input.len() == 0 || call_ensures(head, (input[0],), false)
        },
    }
}

/// Takes a token from the front of `input`: one character that `head` accepts,
/// followed by the longest run of characters that `tail` accepts. Fails, leaving
/// the whole input, when the input is empty or `head` rejects its first
/// character.
pub fn token<'a, H, T>(input: &'a str, head: H, tail: T) -> (result: ParseResult<'a, String>) where
    H: Fn(char) -> bool,
    T: Fn(char) -> bool,

    requires
        input@.len() > 0 ==> call_requires(head, (input@[0],)),
        forall|i: int| 1 <= i < input@.len() ==> call_requires(tail, (#[trigger] input@[i],)),
    ensures
        token_ensures(input@, head, tail, result),
{
    let mut matched = String::new();
    let mut chars = input.chars();
    match chars.next() {
        Some(first) if head(first) => matched.push(first),
        _ => return Err(input),
    }
    loop
        invariant_except_break
            chars.remaining() == input@.skip(matched@.len() as int),
        invariant
            1 <= matched@.len() <= input@.len(),
            matched@ == input@.take(matched@.len() as int),
            call_ensures(head, (input@[0],), true),
            forall|i: int|
                1 <= i < matched@.len() ==> call_ensures(tail, (#[trigger] input@[i],), true),
            forall|i: int| 1 <= i < input@.len() ==> call_requires(tail, (#[trigger] input@[i],)),
        ensures
            matched@.len() < input@.len() ==> call_ensures(
                tail,
                (input@[matched@.len() as int],),
                false,
            ),
        decreases input@.len() - matched@.len(),
    {
        match chars.next() {
            Some(next) if tail(next) => matched.push(next),
            _ => break,
        }
    }
    let next_index = matched.as_str().as_bytes().len();
    proof {
        let tail_text = input@.skip(matched@.len() as int);
        assert(matched@ + tail_text =~= input@);
        lemma_boundary_after_prefix(matched@, tail_text);
    }
    let (_, rest) = input.split_at(next_index);
    proof {
        let tail_text = input@.skip(matched@.len() as int);
        lemma_encode_concat(matched@, tail_text);
        assert(encode_utf8(rest@) =~= encode_utf8(tail_text));
        lemma_encode_injective(rest@, tail_text);
    }
    Ok((rest, matched))
}

} // verus!
