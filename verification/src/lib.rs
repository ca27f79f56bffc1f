//! Parser combinators over text.
//!
//! A parser takes an input and gives either a value with the rest of the
//! input, or the input that was left where it failed. The primitive parsers
//! are [`match_literal`] and [`identifier`]; [`pair`], [`map`], [`left`] and
//! [`right`] build parsers out of parsers. Every function from an input to a
//! [`ParseResult`] is a parser too.
//!
//! What a parser does is stated by two relations of the [`Parser`] trait,
//! `parse_requires` and `parse_ensures`. The combinators say what these are
//! for the parser they build, in terms of the parsers and functions they are
//! given.
//!
//! Verus does not unfold the two relations of a named function or a closure
//! that is used as a parser. Before reasoning about a parser built from one,
//! call [`parser::lemma_function_parser`] on it; for [`identifier`] there is
//! [`identifier::lemma_identifier_is_parser`].

pub mod element;
pub mod identifier;
pub mod laws;
pub mod literal;
pub mod parser;
pub mod text;
pub mod token;

pub use crate::element::{Element, ElementView};
pub use crate::identifier::identifier;
pub use crate::literal::{match_literal, Literal};
pub use crate::parser::{ParseResult, Parser};
pub use crate::token::token;

use crate::parser::consumes_front;

use core::marker::PhantomData;
use vstd::prelude::*;

verus! {

/// Whether the sequence of `parser1` and `parser2` may be run on `input`:
/// `parser1` may be run on it, and `parser2` on whatever `parser1` may leave.
pub open spec fn pair_requires<'a, P, Q, A, B>(
    parser1: P,
    parser2: Q,
    input: &'a str,
) -> bool where P: Parser<'a, A>, Q: Parser<'a, B> {
    &&& parser1.parse_requires(input)
    &&& forall|mid: &'a str, value1: A| #[trigger]
        parser1.parse_ensures(input, Ok((mid, value1))) ==> parser2.parse_requires(mid)
}

/// What running `parser1` and then `parser2` may give. Either both succeed in
/// turn, and the result holds both values and what `parser2` left; or
/// `parser1` fails, and the result is its failure; or `parser1` succeeds and
/// `parser2` fails on what `parser1` left, and the result is the failure of
/// `parser2`.
pub open spec fn pair_ensures<'a, P, Q, A, B>(
    parser1: P,
    parser2: Q,
    input: &'a str,
    result: ParseResult<'a, (A, B)>,
) -> bool where P: Parser<'a, A>, Q: Parser<'a, B> {
    ||| exists|mid: &'a str, rest: &'a str, value1: A, value2: B|
        {
            &&& #[trigger] parser1.parse_ensures(input, Ok((mid, value1)))
            &&& #[trigger] parser2.parse_ensures(mid, Ok((rest, value2)))
            &&& result == Ok::<(&'a str, (A, B)), &'a str>((rest, (value1, value2)))
        }
    ||| exists|rest: &'a str|
        {
            &&& #[trigger] parser1.parse_ensures(input, Err(rest))
            &&& result == Err::<(&'a str, (A, B)), &'a str>(rest)
        }
    ||| exists|mid: &'a str, rest: &'a str, value1: A|
        {
            &&& #[trigger] parser1.parse_ensures(input, Ok((mid, value1)))
            &&& #[trigger] parser2.parse_ensures(mid, Err(rest))
            &&& result == Err::<(&'a str, (A, B)), &'a str>(rest)
        }
}

/// Two parsers run one after the other.
pub struct Pair<P, Q> {
    pub first: P,
    pub second: Q,
}

impl<'a, P, Q, A, B> Parser<'a, (A, B)> for Pair<P, Q> where
    P: Parser<'a, A>,
    Q: Parser<'a, B>,
 {
    open spec fn parse_requires(&self, input: &'a str) -> bool {
        pair_requires(self.first, self.second, input)
    }

    open spec fn parse_ensures(&self, input: &'a str, result: ParseResult<'a, (A, B)>) -> bool {
        pair_ensures(self.first, self.second, input, result)
    }

    fn parse(&self, input: &'a str) -> (result: ParseResult<'a, (A, B)>) {
        match self.first.parse(input) {
            Ok((mid, value1)) => match self.second.parse(mid) {
                Ok((rest, value2)) => Ok((rest, (value1, value2))),
                Err(rest) => Err(rest),
            },
            Err(rest) => Err(rest),
        }
    }
}

/// Runs `parser1`, then `parser2` on what `parser1` left, and pairs their
/// values. A failure of either is the failure of the pair.
pub fn pair<'a, P, Q, A, B>(parser1: P, parser2: Q) -> (parser: Pair<P, Q>) where
    P: Parser<'a, A>,
    Q: Parser<'a, B>,

    ensures
        parser.first == parser1,
        parser.second == parser2,
        forall|input: &'a str| #[trigger]
            parser.parse_requires(input) == pair_requires(parser1, parser2, input),
        forall|input: &'a str, result: ParseResult<'a, (A, B)>| #[trigger]
            parser.parse_ensures(input, result) == pair_ensures(parser1, parser2, input, result),
        consumes_front(parser1) && consumes_front(parser2) ==> consumes_front(parser),
{
    Pair { first: parser1, second: parser2 }
}

/// Whether `parser` followed by `map_fn` may be run on `input`: `parser` may be
/// run on it, and `map_fn` may be called on every value `parser` may give.
pub open spec fn map_requires<'a, P, F, A, B>(parser: P, map_fn: F, input: &'a str) -> bool where
    P: Parser<'a, A>,
    F: Fn(A) -> B,
 {
    &&& parser.parse_requires(input)
    &&& forall|rest: &'a str, value: A| #[trigger]
        parser.parse_ensures(input, Ok((rest, value))) ==> call_requires(map_fn, (value,))
}

/// What running `parser` and passing its value through `map_fn` may give.
/// Either `parser` succeeds, and the result holds what it left and what
/// `map_fn` gives for its value; or `parser` fails, and the result is its
/// failure, with `map_fn` not involved.
pub open spec fn map_ensures<'a, P, F, A, B>(
    parser: P,
    map_fn: F,
    input: &'a str,
    result: ParseResult<'a, B>,
) -> bool where P: Parser<'a, A>, F: Fn(A) -> B {
    ||| exists|rest: &'a str, value: A, mapped: B|
        {
            &&& #[trigger] parser.parse_ensures(input, Ok((rest, value)))
            &&& #[trigger] call_ensures(map_fn, (value,), mapped)
            &&& result == Ok::<(&'a str, B), &'a str>((rest, mapped))
        }
    ||| exists|rest: &'a str|
        {
            &&& #[trigger] parser.parse_ensures(input, Err(rest))
            &&& result == Err::<(&'a str, B), &'a str>(rest)
        }
}

/// A parser whose value is passed through a function.
pub struct Mapped<P, F, A> {
    pub parser: P,
    pub map_fn: F,
    pub marker: PhantomData<A>,
}

impl<'a, P, F, A, B> Parser<'a, B> for Mapped<P, F, A> where P: Parser<'a, A>, F: Fn(A) -> B {
    open spec fn parse_requires(&self, input: &'a str) -> bool {
        map_requires(self.parser, self.map_fn, input)
    }

    open spec fn parse_ensures(&self, input: &'a str, result: ParseResult<'a, B>) -> bool {
        map_ensures(self.parser, self.map_fn, input, result)
    }

    fn parse(&self, input: &'a str) -> (result: ParseResult<'a, B>) {
        match self.parser.parse(input) {
            Ok((rest, value)) => Ok((rest, (self.map_fn)(value))),
            Err(rest) => Err(rest),
        }
    }
}

/// Runs `parser` and applies `map_fn` to the value of a success. A failure is
/// passed on as it is, and `map_fn` is not called.
pub fn map<'a, P, F, A, B>(parser: P, map_fn: F) -> (mapped: Mapped<P, F, A>) where
    P: Parser<'a, A>,
    F: Fn(A) -> B,

    ensures
        mapped.parser == parser,
        mapped.map_fn == map_fn,
        forall|input: &'a str| #[trigger]
            mapped.parse_requires(input) == map_requires(parser, map_fn, input),
        forall|input: &'a str, result: ParseResult<'a, B>| #[trigger]
            mapped.parse_ensures(input, result) == map_ensures(parser, map_fn, input, result),
        consumes_front(parser) ==> consumes_front(mapped),
{
    Mapped { parser, map_fn, marker: PhantomData }
}

/// What running `parser1`, then `parser2`, and keeping the value of `parser1`
/// may give: what the pair of them may give, with the second value dropped
/// from a success.
pub open spec fn left_ensures<'a, P, Q, A, B>(
    parser1: P,
    parser2: Q,
    input: &'a str,
    result: ParseResult<'a, A>,
) -> bool where P: Parser<'a, A>, Q: Parser<'a, B> {
    ||| exists|rest: &'a str, value1: A, value2: B|
        {
            &&& #[trigger] pair_ensures(parser1, parser2, input, Ok((rest, (value1, value2))))
            &&& result == Ok::<(&'a str, A), &'a str>((rest, value1))
        }
    ||| exists|rest: &'a str|
        {
            &&& #[trigger] pair_ensures::<P, Q, A, B>(parser1, parser2, input, Err(rest))
            &&& result == Err::<(&'a str, A), &'a str>(rest)
        }
}

/// What running `parser1`, then `parser2`, and keeping the value of `parser2`
/// may give: what the pair of them may give, with the first value dropped
/// from a success.
pub open spec fn right_ensures<'a, P, Q, A, B>(
    parser1: P,
    parser2: Q,
    input: &'a str,
    result: ParseResult<'a, B>,
) -> bool where P: Parser<'a, A>, Q: Parser<'a, B> {
    ||| exists|rest: &'a str, value1: A, value2: B|
        {
            &&& #[trigger] pair_ensures(parser1, parser2, input, Ok((rest, (value1, value2))))
            &&& result == Ok::<(&'a str, B), &'a str>((rest, value2))
        }
    ||| exists|rest: &'a str|
        {
            &&& #[trigger] pair_ensures::<P, Q, A, B>(parser1, parser2, input, Err(rest))
            &&& result == Err::<(&'a str, B), &'a str>(rest)
        }
}

/// Runs `parser1`, then `parser2` on what `parser1` left, and keeps the value
/// of `parser1` only.
pub fn left<'a, P, Q, A, B>(parser1: P, parser2: Q) -> (parser: impl Parser<'a, A>) where
    P: Parser<'a, A>,
    Q: Parser<'a, B>,

    ensures
        forall|input: &'a str|
            pair_requires(parser1, parser2, input) ==> #[trigger] parser.parse_requires(input),
        forall|input: &'a str, result: ParseResult<'a, A>| #[trigger]
            parser.parse_ensures(input, result) ==> left_ensures(parser1, parser2, input, result),
        consumes_front(parser1) && consumes_front(parser2) ==> consumes_front(parser),
{
    let first_of = |both: (A, B)| -> (value: A)
        ensures
            value == both.0,
        {
            both.0
        };
    map(pair(parser1, parser2), first_of)
}

/// Runs `parser1`, then `parser2` on what `parser1` left, and keeps the value
/// of `parser2` only.
pub fn right<'a, P, Q, A, B>(parser1: P, parser2: Q) -> (parser: impl Parser<'a, B>) where
    P: Parser<'a, A>,
    Q: Parser<'a, B>,

    ensures
        forall|input: &'a str|
            pair_requires(parser1, parser2, input) ==> #[trigger] parser.parse_requires(input),
        forall|input: &'a str, result: ParseResult<'a, B>| #[trigger]
            parser.parse_ensures(input, result) ==> right_ensures(parser1, parser2, input, result),
        consumes_front(parser1) && consumes_front(parser2) ==> consumes_front(parser),
{
    let second_of = |both: (A, B)| -> (value: B)
        ensures
            value == both.1,
        {
            both.1
        };
    map(pair(parser1, parser2), second_of)
}

} // verus!
