//! The result of parsing, and what a parser is.

use vstd::prelude::*;

verus! {

/// What a parser returns: on success the unconsumed rest of the input with the
/// parsed value, on failure the input that was left where parsing stopped.
pub type ParseResult<'a, Output> = Result<(&'a str, Output), &'a str>;

/// The text that `result` leaves unconsumed.
pub open spec fn remainder<'a, Output>(result: ParseResult<'a, Output>) -> Seq<char> {
    match result {
        Ok((rest, _)) => rest@,
        Err(rest) => rest@,
    }
}

/// Anything that can be run on an input to give a [`ParseResult`].
///
/// A parser is described by two relations. `parse_requires` holds of the inputs
/// it may be run on, and `parse_ensures` relates each such input to the results
/// that running it may give.
pub trait Parser<'a, Output> {
    /// Whether `parse` may be called on `input`.
    spec fn parse_requires(&self, input: &'a str) -> bool;

    /// Whether `result` is a possible outcome of `parse` on `input`.
    spec fn parse_ensures(&self, input: &'a str, result: ParseResult<'a, Output>) -> bool;

    /// Runs the parser on `input`.
    fn parse(&self, input: &'a str) -> (result: ParseResult<'a, Output>)
        requires
            self.parse_requires(input),
        ensures
            self.parse_ensures(input, result),
    ;
}

/// Every function from an input to a [`ParseResult`] is a parser, with the
/// function's own precondition and postcondition.
impl<'a, F, Output> Parser<'a, Output> for F where F: Fn(&'a str) -> ParseResult<'a, Output> {
    open spec fn parse_requires(&self, input: &'a str) -> bool {
        call_requires(*self, (input,))
    }

    open spec fn parse_ensures(&self, input: &'a str, result: ParseResult<'a, Output>) -> bool {
        call_ensures(*self, (input,), result)
    }

    fn parse(&self, input: &'a str) -> (result: ParseResult<'a, Output>) {
        self(input)
    }
}

/// Whether `parser` only takes text from the front of its input: whatever a
/// result of it leaves unconsumed is a suffix of the input.
pub open spec fn consumes_front<'a, P, Output>(parser: P) -> bool where P: Parser<'a, Output> {
    forall|input: &'a str, result: ParseResult<'a, Output>| #[trigger]
        parser.parse_ensures(input, result) ==> remainder(result).is_suffix_of(input@)
}

/// A function used as a parser may be run wherever the function may be
/// called, and gives what the function gives.
///
/// Verus does not unfold this by itself for a named function or a closure.
/// Call this lemma on the function before reasoning about a parser built
/// from it.
pub proof fn lemma_function_parser<'a, F, Output>(function: F) where
    F: Fn(&'a str) -> ParseResult<'a, Output>,

    ensures
        forall|input: &'a str| #[trigger]
            function.parse_requires(input) == call_requires(function, (input,)),
        forall|input: &'a str, result: ParseResult<'a, Output>| #[trigger]
            function.parse_ensures(input, result) == call_ensures(function, (input,), result),
{
}

} // verus!
