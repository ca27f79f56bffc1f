//! What holds of parsers built by sequencing and mapping.

use crate::parser::{consumes_front, ParseResult, Parser};
use crate::{map_ensures, map_requires, Mapped, Pair};
use vstd::prelude::*;

verus! {

/// A sequence of two parsers that only take text from the front of their
/// input does so too.
pub proof fn lemma_pair_consumes_front<'a, P, Q, A, B>(pair: Pair<P, Q>) where
    P: Parser<'a, A>,
    Q: Parser<'a, B>,

    requires
        consumes_front::<'a, P, A>(pair.first),
        consumes_front::<'a, Q, B>(pair.second),
    ensures
        consumes_front::<'a, Pair<P, Q>, (A, B)>(pair),
{
}

/// Passing the value of a parser through a function changes nothing about
/// what is left: if the parser only takes text from the front of its input,
/// so does the mapped one.
pub proof fn lemma_map_consumes_front<'a, P, F, A, B>(mapped: Mapped<P, F, A>) where
    P: Parser<'a, A>,
    F: Fn(A) -> B,

    requires
        consumes_front::<'a, P, A>(mapped.parser),
    ensures
        consumes_front::<'a, Mapped<P, F, A>, B>(mapped),
{
}

/// Whether `fused` stays within `outer` after `inner`: it may be called
/// wherever `inner` followed by `outer` may, and gives only what they give.
pub open spec fn within_composition<F, G, H, A, B, C>(fused: H, outer: G, inner: F) -> bool where
    F: Fn(A) -> B,
    G: Fn(B) -> C,
    H: Fn(A) -> C,
 {
    &&& forall|a: A|
        {
            &&& call_requires(inner, (a,))
            &&& forall|b: B| #[trigger] call_ensures(inner, (a,), b) ==> call_requires(outer, (b,))
        } ==> #[trigger] call_requires(fused, (a,))
    &&& forall|a: A, c: C| #[trigger]
        call_ensures(fused, (a,), c) ==> exists|b: B|
            #[trigger] call_ensures(inner, (a,), b) && #[trigger] call_ensures(outer, (b,), c)
}

/// Whether `fused` covers `outer` after `inner`: it may be called only where
/// `inner` followed by `outer` may, and gives all that they give.
pub open spec fn covers_composition<F, G, H, A, B, C>(fused: H, outer: G, inner: F) -> bool where
    F: Fn(A) -> B,
    G: Fn(B) -> C,
    H: Fn(A) -> C,
 {
    &&& forall|a: A| #[trigger]
        call_requires(fused, (a,)) ==> {
            &&& call_requires(inner, (a,))
            &&& forall|b: B| #[trigger] call_ensures(inner, (a,), b) ==> call_requires(outer, (b,))
        }
    &&& forall|a: A, b: B, c: C|
        #[trigger] call_ensures(inner, (a,), b) && #[trigger] call_ensures(outer, (b,), c)
            ==> call_ensures(fused, (a,), c)
}

/// Mapping once with a function that stays within `outer` after `inner` is
/// possible wherever mapping with `inner` and then with `outer` is, and gives
/// only results that the two mappings in a row give.
pub proof fn lemma_fused_map_within_nested<'a, P, F, G, H, A, B, C>(
    inner: Mapped<P, F, A>,
    outer: G,
    fused: H,
    input: &'a str,
    result: ParseResult<'a, C>,
) where P: Parser<'a, A>, F: Fn(A) -> B, G: Fn(B) -> C, H: Fn(A) -> C
    requires
        within_composition(fused, outer, inner.map_fn),
    ensures
        map_requires(inner, outer, input) ==> map_requires(inner.parser, fused, input),
        map_ensures(inner.parser, fused, input, result) ==> map_ensures(inner, outer, input, result),
{
    if map_requires(inner, outer, input) {
        assert forall|rest: &'a str, value: A| #[trigger]
            inner.parser.parse_ensures(input, Ok((rest, value))) implies call_requires(
            fused,
            (value,),
        ) by {
            assert forall|b: B| #[trigger] call_ensures(inner.map_fn, (value,), b) implies call_requires(
                outer,
                (b,),
            ) by {
                assert(inner.parse_ensures(input, Ok((rest, b))));
            }
        }
    }
    if map_ensures(inner.parser, fused, input, result) {
        if result is Ok {
            let (rest, value, mapped) = choose|rest: &'a str, value: A, mapped: C|
                {
                    &&& #[trigger] inner.parser.parse_ensures(input, Ok((rest, value)))
                    &&& #[trigger] call_ensures(fused, (value,), mapped)
                    &&& result == Ok::<(&'a str, C), &'a str>((rest, mapped))
                };
            let between = choose|b: B|
                #[trigger] call_ensures(inner.map_fn, (value,), b) && #[trigger] call_ensures(
                    outer,
                    (b,),
                    mapped,
                );
            assert(inner.parse_ensures(input, Ok((rest, between))));
        } else {
            let rest = choose|rest: &'a str|
                {
                    &&& #[trigger] inner.parser.parse_ensures(input, Err(rest))
                    &&& result == Err::<(&'a str, C), &'a str>(rest)
                };
            assert(inner.parse_ensures(input, Err(rest)));
        }
    }
}

/// Mapping with `inner` and then with `outer` is possible wherever mapping
/// once with a function that covers `outer` after `inner` is, and gives only
/// results that the single mapping gives.
pub proof fn lemma_nested_map_within_fused<'a, P, F, G, H, A, B, C>(
    inner: Mapped<P, F, A>,
    outer: G,
    fused: H,
    input: &'a str,
    result: ParseResult<'a, C>,
) where P: Parser<'a, A>, F: Fn(A) -> B, G: Fn(B) -> C, H: Fn(A) -> C
    requires
        covers_composition(fused, outer, inner.map_fn),
    ensures
        map_requires(inner.parser, fused, input) ==> map_requires(inner, outer, input),
        map_ensures(inner, outer, input, result) ==> map_ensures(inner.parser, fused, input, result),
{
}

/// Mapping with `inner` and then with `outer` behaves as mapping once with
/// their composition: the two may be run on the same inputs and give the same
/// results.
pub proof fn lemma_map_fusion<'a, P, F, G, H, A, B, C>(
    inner: Mapped<P, F, A>,
    outer: G,
    fused: H,
    input: &'a str,
    result: ParseResult<'a, C>,
) where P: Parser<'a, A>, F: Fn(A) -> B, G: Fn(B) -> C, H: Fn(A) -> C
    requires
        within_composition(fused, outer, inner.map_fn),
        covers_composition(fused, outer, inner.map_fn),
    ensures
        map_requires(inner, outer, input) <==> map_requires(inner.parser, fused, input),
        map_ensures(inner, outer, input, result) <==> map_ensures(inner.parser, fused, input, result),
{
    lemma_fused_map_within_nested(inner, outer, fused, input, result);
}

} // verus!
