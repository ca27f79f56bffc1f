//! The parser for a fixed text, and what holds of it.

use crate::parser::{consumes_front, remainder, ParseResult, Parser};
use crate::text::{lemma_encode_concat, strip_prefix};
use vstd::prelude::*;
use vstd::utf8::encode_utf8;

verus! {

/// A parser that matches one fixed text at the front of the input.
pub struct Literal {
    pub expected: &'static str,
}

/// What matching `expected` against `input` gives: a success that leaves what
/// follows `expected` when `input` starts with it, and otherwise a failure that
/// leaves the whole input.
pub open spec fn literal_ensures<'a>(
    expected: Seq<char>,
    input: Seq<char>,
    result: ParseResult<'a, ()>,
) -> bool {
    if expected.is_prefix_of(input) {
        result matches Ok((rest, _)) && rest@ == input.skip(expected.len() as int)
    } else {
        result matches Err(rest) && rest@ == input
    }
}

impl<'a> Parser<'a, ()> for Literal {
    open spec fn parse_requires(&self, input: &'a str) -> bool {
        true
    }

    open spec fn parse_ensures(&self, input: &'a str, result: ParseResult<'a, ()>) -> bool {
        literal_ensures(self.expected@, input@, result)
    }

    fn parse(&self, input: &'a str) -> (result: ParseResult<'a, ()>) {
        match strip_prefix(input, self.expected) {
            Some(rest) => {
                assert(rest@ =~= input@.skip(self.expected@.len() as int));
                Ok((rest, ()))
            },
            None => Err(input),
        }
    }
}

/// A parser for the text `expected`.
pub fn match_literal(expected: &'static str) -> (parser: Literal)
    ensures
        parser.expected == expected,
{
    Literal { expected }
}

/// A literal parser only takes text from the front of its input.
pub proof fn lemma_literal_consumes_front<'a>(parser: Literal)
    ensures
        consumes_front::<'a, Literal, ()>(parser),
{
}

/// A literal parser run on its own text succeeds and leaves nothing.
pub proof fn lemma_literal_matches_itself<'a>(
    parser: Literal,
    input: &'a str,
    result: ParseResult<'a, ()>,
)
    requires
        input@ == parser.expected@,
        parser.parse_ensures(input, result),
    ensures
        result is Ok,
        remainder(result) == Seq::<char>::empty(),
{
}

/// A literal parser run on its own text followed by `suffix` succeeds and
/// leaves exactly `suffix`.
pub proof fn lemma_literal_strips_prefix<'a>(
    parser: Literal,
    input: &'a str,
    suffix: Seq<char>,
    result: ParseResult<'a, ()>,
)
    requires
        input@ == parser.expected@ + suffix,
        parser.parse_ensures(input, result),
    ensures
        result is Ok,
        remainder(result) == suffix,
{
}

/// A literal parser for the empty text succeeds on every input and leaves all
/// of it.
pub proof fn lemma_empty_literal_consumes_nothing<'a>(
    parser: Literal,
    input: &'a str,
    result: ParseResult<'a, ()>,
)
    requires
        parser.expected@.len() == 0,
        parser.parse_ensures(input, result),
    ensures
        result is Ok,
        remainder(result) == input@,
{
}

/// Two results of a literal parser on the same input agree: both succeed or
/// both fail, and they leave the same text.
pub proof fn lemma_literal_result_unique<'a>(
    expected: Seq<char>,
    input: Seq<char>,
    result1: ParseResult<'a, ()>,
    result2: ParseResult<'a, ()>,
)
    requires
        literal_ensures(expected, input, result1),
        literal_ensures(expected, input, result2),
    ensures
        result1 is Ok <==> result2 is Ok,
        remainder(result1) == remainder(result2),
{
}

/// A literal parser fails, and leaves the whole input, when the input is
/// shorter than its text or differs from it at some character.
pub proof fn lemma_literal_rejects_mismatch<'a>(
    parser: Literal,
    input: &'a str,
    result: ParseResult<'a, ()>,
)
    requires
        parser.parse_ensures(input, result),
        input@.len() < parser.expected@.len() || exists|i: int|
            0 <= i < parser.expected@.len() && input@[i] != parser.expected@[i],
    ensures
        result is Err,
        remainder(result) == input@,
{
}

/// A literal parser fails, and leaves the whole input, when the input's
/// encoding is shorter than that of its text or differs from it at some byte.
pub proof fn lemma_literal_rejects_byte_mismatch<'a>(
    parser: Literal,
    input: &'a str,
    result: ParseResult<'a, ()>,
)
    requires
        parser.parse_ensures(input, result),
        ({
            let expected = encode_utf8(parser.expected@);
            let given = encode_utf8(input@);
            given.len() < expected.len() || exists|i: int|
                0 <= i < expected.len() && given[i] != expected[i]
        }),
    ensures
        result is Err,
        remainder(result) == input@,
{
    let expected = parser.expected@;
    if expected.is_prefix_of(input@) {
        let tail = input@.skip(expected.len() as int);
        assert(expected + tail =~= input@);
        lemma_encode_concat(expected, tail);
    }
}

} // verus!
