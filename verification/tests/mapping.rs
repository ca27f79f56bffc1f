use parser_combinators::{identifier, match_literal, pair, Parser};

#[test]
fn map_changes_the_value_and_keeps_the_rest() {
    let length = parser_combinators::map(identifier, |name: String| name.len());
    assert_eq!(Ok((" bob", 5)), length.parse("alice bob"));
    assert_eq!(Ok(("", 1)), length.parse("a"));
}

#[test]
fn map_can_change_the_type_of_the_value() {
    let found = parser_combinators::map(match_literal("yes"), |_: ()| true);
    assert_eq!(Ok(("!", true)), found.parse("yes!"));
    assert_eq!(Err("no"), found.parse("no"));
}

#[test]
fn map_passes_a_failure_on_unchanged() {
    let to_upper = parser_combinators::map(identifier, |s: String| s.to_uppercase());
    assert_eq!(Err(""), to_upper.parse(""));
    assert_eq!(Err("!alice"), to_upper.parse("!alice"));
    let tagged = parser_combinators::map(pair(match_literal("<"), identifier), |(_, name)| name);
    assert_eq!(Err("!oops"), tagged.parse("<!oops"));
}

#[test]
fn map_does_not_call_the_function_on_failure() {
    let parser = parser_combinators::map(identifier, |_: String| -> usize {
        panic!("the function was called for a failed parse")
    });
    assert_eq!(Err("1abc"), parser.parse("1abc"));
    assert_eq!(Err(""), parser.parse(""));
}

#[test]
fn map_twice_is_map_with_the_composition() {
    let upper = |s: String| s.to_uppercase();
    let length = |s: String| s.len();
    for input in ["alice bob", "a", "", "!alice", "straße-1 x", "x--"] {
        let nested = parser_combinators::map(parser_combinators::map(identifier, upper), length);
        let fused = parser_combinators::map(identifier, |s: String| length(upper(s)));
        assert_eq!(nested.parse(input), fused.parse(input));
    }
    let nested = parser_combinators::map(parser_combinators::map(identifier, upper), length);
    assert_eq!(Ok((" x", 9)), nested.parse("straße-1 x"));
}

#[test]
fn map_with_the_identity_changes_nothing() {
    for input in ["alice bob", "", "!alice", "x-1/>"] {
        let mapped = parser_combinators::map(identifier, |s: String| s);
        assert_eq!(identifier(input), mapped.parse(input));
    }
}
