use parser_combinators::text::{bytes_equal, strip_prefix};
use parser_combinators::{match_literal, Parser};

#[test]
fn literal_matches_itself() {
    for expected in ["<", "Hello Joe!", "/>", "a-b", "żółw", "日本語", " "] {
        assert_eq!(Ok(("", ())), match_literal(expected).parse(expected));
    }
}

#[test]
fn literal_leaves_what_follows_it() {
    assert_eq!(Ok(("my-first-element/>", ())), match_literal("<").parse("<my-first-element/>"));
    assert_eq!(Ok((">", ())), match_literal("/").parse("/>"));
    assert_eq!(Ok(("łw", ())), match_literal("żó").parse("żółw"));
    assert_eq!(Ok(("本語", ())), match_literal("日").parse("日本語"));
    assert_eq!(Ok(("<<", ())), match_literal("<").parse("<<<"));
}

#[test]
fn empty_literal_consumes_nothing() {
    let nothing = match_literal("");
    assert_eq!(Ok(("", ())), nothing.parse(""));
    assert_eq!(Ok(("abc", ())), nothing.parse("abc"));
    assert_eq!(Ok(("żółw", ())), nothing.parse("żółw"));
}

#[test]
fn literal_rejects_shorter_input() {
    let parser = match_literal("Hello");
    assert_eq!(Err(""), parser.parse(""));
    assert_eq!(Err("H"), parser.parse("H"));
    assert_eq!(Err("Hell"), parser.parse("Hell"));
}

#[test]
fn literal_rejects_any_differing_byte() {
    let parser = match_literal("Hello");
    assert_eq!(Err("Jello"), parser.parse("Jello"));
    assert_eq!(Err("Hallo"), parser.parse("Hallo"));
    assert_eq!(Err("Hellp!"), parser.parse("Hellp!"));
}

#[test]
fn literal_does_not_fold_case_or_trim() {
    let parser = match_literal("Hello");
    assert_eq!(Err("hello"), parser.parse("hello"));
    assert_eq!(Err("HELLO"), parser.parse("HELLO"));
    assert_eq!(Err(" Hello"), parser.parse(" Hello"));
}

#[test]
fn literal_rejects_a_cut_through_a_character() {
    // "é" takes two bytes: one byte of expected text ends inside it.
    assert_eq!(Err("é"), match_literal("a").parse("é"));
    // "é" and "ê" share their first byte.
    assert_eq!(Err("ê"), match_literal("é").parse("ê"));
    // "日" takes three bytes and "é" two.
    assert_eq!(Err("日本"), match_literal("é").parse("日本"));
}

#[test]
fn literal_can_be_run_again() {
    let parser = match_literal("ab");
    assert_eq!(Ok(("c", ())), parser.parse("abc"));
    assert_eq!(Err("xab"), parser.parse("xab"));
    assert_eq!(Ok(("c", ())), parser.parse("abc"));
}

#[test]
fn strip_prefix_gives_the_rest() {
    assert_eq!(Some(" world"), strip_prefix("hello world", "hello"));
    assert_eq!(Some("hello"), strip_prefix("hello", ""));
    assert_eq!(Some(""), strip_prefix("hello", "hello"));
    assert_eq!(Some("本語"), strip_prefix("日本語", "日"));
}

#[test]
fn strip_prefix_gives_nothing_without_the_prefix() {
    assert_eq!(None, strip_prefix("hello", "help"));
    assert_eq!(None, strip_prefix("he", "hello"));
    assert_eq!(None, strip_prefix("", "a"));
    assert_eq!(None, strip_prefix("é", "a"));
}

#[test]
fn bytes_equal_compares_every_byte() {
    assert!(bytes_equal(b"", b""));
    assert!(bytes_equal(b"abc", b"abc"));
    assert!(!bytes_equal(b"abc", b"abd"));
    assert!(!bytes_equal(b"abc", b"xbc"));
    assert!(!bytes_equal(b"abc", b"ab"));
    assert!(!bytes_equal(b"", b"a"));
}
