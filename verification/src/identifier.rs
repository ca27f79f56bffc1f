//! The parser for identifiers, and what holds of it.

use crate::parser::{consumes_front, lemma_function_parser, remainder, ParseResult, Parser};
use crate::token::token;
use vstd::prelude::*;

verus! {

/// What `char::is_alphabetic` returns for `c`: whether `c` has the Unicode
/// property Alphabetic, by the tables of the standard library in use.
pub uninterp spec fn alphabetic(c: char) -> bool;

/// What `char::is_numeric` returns for `c`: whether `c` is in one of the
/// Unicode categories for numbers, by the tables of the standard library in
/// use.
pub uninterp spec fn numeric(c: char) -> bool;

/// Trusted, of `char::is_alphabetic`: its result depends on the character
/// alone, and is named [`alphabetic`]. Which characters it holds of is left
/// open.
pub assume_specification[ char::is_alphabetic ](c: char) -> (b: bool)
    ensures
        b == alphabetic(c),
;

/// Trusted, of `char::is_alphanumeric`: it holds of the characters of which
/// `char::is_alphabetic` or `char::is_numeric` holds, and of no others.
pub assume_specification[ char::is_alphanumeric ](c: char) -> (b: bool)
    ensures
        b == (alphabetic(c) || numeric(c)),
;

/// Whether an identifier may start with `c`.
pub open spec fn is_identifier_start(c: char) -> bool {
    alphabetic(c)
}

/// Whether `c` may stand in an identifier after its first character.
pub open spec fn is_identifier_part(c: char) -> bool {
    alphabetic(c) || numeric(c) || c == '-'
}

/// Whether the first `n` characters of `input` are the identifier at its front:
/// a starting character, then identifier characters up to the end of the input
/// or the first character that cannot stand in an identifier.
pub open spec fn identifier_ends_at(input: Seq<char>, n: int) -> bool {
    &&& 1 <= n <= input.len()
    &&& is_identifier_start(input[0])
    &&& forall|i: int| 1 <= i < n ==> is_identifier_part(#[trigger] input[i])
    &&& n < input.len() ==> !is_identifier_part(input[n])
}

/// What reading an identifier from the front of `input` gives: the identifier
/// and the text after it, or a failure that leaves the whole input when the
/// input does not start with an identifier character.
pub open spec fn identifier_ensures<'a>(input: Seq<char>, result: ParseResult<'a, String>) -> bool {
    match result {
        Ok((rest, name)) => {
            &&& identifier_ends_at(input, name@.len() as int)
            &&& name@ == input.take(name@.len() as int)
            &&& rest@ == input.skip(name@.len() as int)
        },
        Err(rest) => {
            &&& rest@ == input
            &&& input.len() == 0 || !is_identifier_start(input[0])
        },
    }
}

/// Reads an identifier from the front of `input`: an alphabetic character
/// followed by the longest run of alphanumeric characters and hyphens.
pub fn identifier<'a>(input: &'a str) -> (result: ParseResult<'a, String>)
    ensures
        identifier_ensures(input@, result),
{
    let starts = |c: char| -> (b: bool)
        ensures
            b == is_identifier_start(c),
        {
            c.is_alphabetic()
        };
    let continues = |c: char| -> (b: bool)
        ensures
            b == is_identifier_part(c),
        {
            c.is_alphanumeric() || c == '-'
        };
    token(input, starts, continues)
}

/// `identifier` is a parser as it stands: it may be run on every input, and as
/// a parser it gives what it gives as a function.
pub proof fn lemma_identifier_is_parser<'a>()
    ensures
        forall|input: &'a str| #[trigger] identifier.parse_requires(input),
        forall|input: &'a str, result: ParseResult<'a, String>| #[trigger]
            identifier.parse_ensures(input, result) ==> identifier_ensures(input@, result),
{
    lemma_function_parser::<_, String>(identifier);
}

/// Reading an identifier only takes text from the front of the input.
pub proof fn lemma_identifier_consumes_front<'a>()
    ensures
        consumes_front::<'a, _, String>(identifier),
{
    lemma_identifier_is_parser();
}

/// The end of the identifier at the front of an input is determined by the
/// input.
pub proof fn lemma_identifier_end_unique(input: Seq<char>, n: int, m: int)
    requires
        identifier_ends_at(input, n),
        identifier_ends_at(input, m),
    ensures
        n == m,
{
}

/// Two results of reading an identifier from the same input agree: both fail
/// and leave the input, or both succeed with the same name and the same rest.
pub proof fn lemma_identifier_result_unique<'a>(
    input: Seq<char>,
    result1: ParseResult<'a, String>,
    result2: ParseResult<'a, String>,
)
    requires
        identifier_ensures(input, result1),
        identifier_ensures(input, result2),
    ensures
        result1 is Ok <==> result2 is Ok,
        remainder(result1) == remainder(result2),
        result1 is Ok ==> result1->Ok_0.1@ == result2->Ok_0.1@,
{
}

/// Reading an identifier succeeds exactly on the inputs that start with an
/// alphabetic character. On every other input, the empty one among them, it
/// fails and leaves the whole input.
pub proof fn lemma_identifier_needs_alphabetic_start<'a>(
    input: Seq<char>,
    result: ParseResult<'a, String>,
)
    requires
        identifier_ensures(input, result),
    ensures
        result is Ok <==> input.len() > 0 && alphabetic(input[0]),
        result is Err ==> remainder(result) == input,
{
}

/// An identifier followed by a character that cannot stand in one is read
/// whole, and what follows it is left.
pub proof fn lemma_identifier_stops_at_delimiter<'a>(
    name: Seq<char>,
    follow: Seq<char>,
    result: ParseResult<'a, String>,
)
    requires
        name.len() > 0,
        is_identifier_start(name[0]),
        forall|i: int| 1 <= i < name.len() ==> is_identifier_part(#[trigger] name[i]),
        follow.len() > 0 ==> !is_identifier_part(follow[0]),
        identifier_ensures(name + follow, result),
    ensures
        result matches Ok((rest, found)) && found@ == name && rest@ == follow,
{
    let input = name + follow;
    if let Ok((_, found)) = result {
        lemma_identifier_end_unique(input, found@.len() as int, name.len() as int);
    }
}

} // verus!
