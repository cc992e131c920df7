use regex_pool::{CompileError, CompiledMatcher, Pool};

#[test]
fn new_pool_is_empty() {
    let pool = Pool::new();
    assert_eq!(pool.len(), 0);
    assert_eq!(pool.owners("abc"), 0);
    assert!(!pool.contains("abc"));
}

#[test]
fn handles_share_until_the_last_one_is_released() {
    let mut pool = Pool::new();
    let first = pool.parse("a+b").unwrap();
    let second = pool.parse("a+b").unwrap();
    assert!(first.shares_matcher_with(&second));
    pool.release(first);
    assert!(pool.contains("a+b"));
    let third = pool.parse("a+b").unwrap();
    assert!(third.shares_matcher_with(&second));
    assert_eq!(pool.owners("a+b"), 2);
    assert_eq!(pool.len(), 1);
}

#[test]
fn shared_handles_agree_on_every_haystack() {
    let mut pool = Pool::new();
    let first = pool.parse("b[0-9]+").unwrap();
    let second = pool.parse("b[0-9]+").unwrap();
    let haystacks: [&[u8]; 5] = [b"", b"b", b"b7", b"ab12c", b"\xffb0\xff"];
    let expected = [false, false, true, true, true];
    let mut index: usize = 0;
    while index < haystacks.len() {
        assert_eq!(first.is_match(haystacks[index]), expected[index]);
        assert_eq!(second.is_match(haystacks[index]), expected[index]);
        index += 1;
    }
}

#[test]
fn different_patterns_never_share_a_matcher() {
    let mut pool = Pool::new();
    let first = pool.parse("abc").unwrap();
    let second = pool.parse("abd").unwrap();
    assert!(!first.shares_matcher_with(&second));
    assert_eq!(pool.len(), 2);
    assert_eq!(pool.owners("abc"), 1);
    assert_eq!(pool.owners("abd"), 1);
    assert!(first.is_match(b"abc"));
    assert!(!second.is_match(b"abc"));
}

#[test]
fn patterns_that_match_alike_are_still_kept_apart() {
    let mut pool = Pool::new();
    let first = pool.parse("a|b").unwrap();
    let second = pool.parse("b|a").unwrap();
    assert!(!first.shares_matcher_with(&second));
    assert_eq!(pool.len(), 2);
}

#[test]
fn entry_is_removed_with_its_last_owner() {
    let mut pool = Pool::new();
    let keep = pool.parse("keep").unwrap();
    let first = pool.parse("gone").unwrap();
    let second = pool.parse("gone").unwrap();
    let third = pool.parse("gone").unwrap();
    assert_eq!(pool.len(), 2);
    assert_eq!(pool.owners("gone"), 3);
    pool.release(second);
    assert_eq!(pool.owners("gone"), 2);
    pool.release(first);
    assert_eq!(pool.owners("gone"), 1);
    assert!(pool.contains("gone"));
    pool.release(third);
    assert_eq!(pool.owners("gone"), 0);
    assert!(!pool.contains("gone"));
    assert_eq!(pool.len(), 1);
    assert_eq!(pool.owners("keep"), 1);
    pool.release(keep);
    assert_eq!(pool.len(), 0);
}

#[test]
fn size_returns_to_what_it_was_after_each_cycle() {
    let mut pool = Pool::new();
    let resident = pool.parse("resident").unwrap();
    let mut cycle: u32 = 0;
    while cycle < 100 {
        let visitor = pool.parse("visitor").unwrap();
        let shared = pool.parse("resident").unwrap();
        assert_eq!(pool.len(), 2);
        pool.release(visitor);
        pool.release(shared);
        assert_eq!(pool.len(), 1);
        assert_eq!(pool.owners("resident"), 1);
        cycle += 1;
    }
    pool.release(resident);
    assert_eq!(pool.len(), 0);
}

#[test]
fn pattern_text_comes_back_unchanged() {
    let texts = ["abc", " a b ", "(?i)ABC", "a{1,3}", r"\x41", "é+", "", "(?x) a  b # c", r"\d\s\w"];
    let mut pool = Pool::new();
    let mut index: usize = 0;
    while index < texts.len() {
        let handle = pool.parse(texts[index]).unwrap();
        assert_eq!(handle.as_str(), texts[index]);
        index += 1;
    }
    assert_eq!(pool.len(), texts.len());
}

#[test]
fn failed_parse_leaves_other_entries_alone() {
    let mut pool = Pool::new();
    let resident = pool.parse("ok").unwrap();
    assert_eq!(pool.len(), 1);
    assert!(pool.parse("a(b").is_err());
    assert!(pool.parse("[z-a]").is_err());
    assert!(pool.parse("*").is_err());
    assert_eq!(pool.len(), 1);
    assert_eq!(pool.owners("ok"), 1);
    assert!(!pool.contains("a(b"));
    assert!(resident.is_match(b"ok"));
}

#[test]
fn syntax_error_carries_a_diagnostic() {
    let mut pool = Pool::new();
    match pool.parse("a(b") {
        Err(CompileError::Syntax(diagnostic)) => assert!(diagnostic.contains("unclosed group")),
        _ => panic!("an unclosed group is a syntax error"),
    }
}

#[test]
fn oversized_pattern_reports_the_limit() {
    let mut pool = Pool::new();
    match pool.parse("(?:a{1000}){1000}{100}") {
        Err(CompileError::CompiledTooBig(limit)) => assert_eq!(limit, 10 * (1 << 20)),
        _ => panic!("the compiled form is over the size limit"),
    }
    assert_eq!(pool.len(), 0);
}

#[test]
fn matching_is_byte_oriented() {
    let mut pool = Pool::new();
    let word = pool.parse(r"^\w$").unwrap();
    assert!(word.is_match(b"a"));
    assert!(!word.is_match("δ".as_bytes()));
    let any = pool.parse("^.$").unwrap();
    assert!(any.is_match(b"\xff"));
    assert!(!any.is_match("δ".as_bytes()));
}

#[test]
fn compile_reports_the_pattern_it_was_given() {
    let mut pool = Pool::new();
    let compiled = CompiledMatcher::compile("^a.c$");
    assert!(compiled.is_ok());
    let handle = pool.register(compiled).unwrap();
    assert_eq!(handle.as_str(), "^a.c$");
    assert!(pool.contains("^a.c$"));
    assert!(handle.is_match(b"abc"));
    assert!(!handle.is_match(b"abcd"));
    assert!(matches!(CompiledMatcher::compile("a)"), Err(CompileError::Syntax(_))));
}

#[test]
fn register_stores_a_compiled_matcher_once() {
    let mut pool = Pool::new();
    let first = pool.register(CompiledMatcher::compile("abc")).unwrap();
    assert_eq!(pool.len(), 1);
    assert_eq!(pool.owners("abc"), 1);
    let second = pool.register(CompiledMatcher::compile("abc")).unwrap();
    assert!(second.shares_matcher_with(&first));
    assert_eq!(pool.len(), 1);
    assert_eq!(pool.owners("abc"), 2);
    let other = pool.register(CompiledMatcher::compile("abd")).unwrap();
    assert!(!other.shares_matcher_with(&first));
    assert_eq!(pool.len(), 2);
}

#[test]
fn register_hands_a_failure_on() {
    let mut pool = Pool::new();
    let resident = pool.parse("abc").unwrap();
    let result = pool.register(Err(CompileError::CompiledTooBig(7)));
    assert_eq!(result.err(), Some(CompileError::CompiledTooBig(7)));
    let result = pool.register(Err(CompileError::Syntax(String::from("no"))));
    assert_eq!(result.err(), Some(CompileError::Syntax(String::from("no"))));
    assert_eq!(pool.len(), 1);
    assert_eq!(pool.owners("abc"), 1);
    assert!(resident.is_match(b"abc"));
}

#[test]
fn duplicate_adds_an_owner() {
    let mut pool = Pool::new();
    let first = pool.parse("abc").unwrap();
    let copy = pool.duplicate(&first).unwrap();
    assert!(copy.shares_matcher_with(&first));
    assert_eq!(copy.as_str(), "abc");
    assert_eq!(pool.owners("abc"), 2);
    pool.release(first);
    assert!(pool.contains("abc"));
    pool.release(copy);
    assert!(!pool.contains("abc"));
}

#[test]
fn duplicate_needs_an_entry() {
    let mut pool = Pool::new();
    let mut other = Pool::new();
    let stray = other.parse("abc").unwrap();
    assert!(pool.duplicate(&stray).is_none());
    assert_eq!(pool.len(), 0);
    assert_eq!(other.owners("abc"), 1);
}

#[test]
fn release_without_an_entry_changes_nothing() {
    let mut pool = Pool::new();
    let mut other = Pool::new();
    let resident = pool.parse("abc").unwrap();
    let stray = other.parse("xyz").unwrap();
    pool.release(stray);
    assert_eq!(pool.len(), 1);
    assert_eq!(pool.owners("abc"), 1);
    assert!(resident.is_match(b"abc"));
}

#[test]
fn pools_do_not_share_matchers() {
    let mut pool = Pool::new();
    let mut other = Pool::new();
    let first = pool.parse("abc").unwrap();
    let second = other.parse("abc").unwrap();
    assert!(!first.shares_matcher_with(&second));
    assert!(first.shares_matcher_with(&first));
}

#[test]
fn handle_outlives_its_entry() {
    let mut pool = Pool::new();
    let first = pool.parse("a.c").unwrap();
    let second = pool.parse("a.c").unwrap();
    pool.release(first);
    pool.release(second);
    let fresh = pool.parse("a.c").unwrap();
    assert!(fresh.is_match(b"abc"));
    assert_eq!(pool.owners("a.c"), 1);
}

#[test]
fn parse_fails_exactly_as_compile_does() {
    let texts = ["a(b", "[z-a]", "*", r"\p{Greek", "(?:a{1000}){1000}{100}"];
    let mut pool = Pool::new();
    let resident = pool.parse("ok").unwrap();
    let mut index: usize = 0;
    while index < texts.len() {
        let alone = CompiledMatcher::compile(texts[index]).err();
        assert!(alone.is_some());
        assert_eq!(pool.parse(texts[index]).err(), alone);
        assert_eq!(Pool::new().parse(texts[index]).err(), alone);
        index += 1;
    }
    assert_eq!(pool.len(), 1);
    assert!(resident.is_match(b"ok"));
}

#[test]
fn parse_succeeds_exactly_as_compile_does() {
    let texts = ["abc", "^a.c$", r"\xff", "(?i)x", ""];
    let mut pool = Pool::new();
    let mut index: usize = 0;
    while index < texts.len() {
        assert!(CompiledMatcher::compile(texts[index]).is_ok());
        let first = pool.parse(texts[index]).unwrap();
        let second = pool.parse(texts[index]).unwrap();
        pool.release(first);
        pool.release(second);
        assert!(pool.parse(texts[index]).is_ok());
        index += 1;
    }
}

#[test]
fn handles_of_one_text_answer_alike_across_pools() {
    let mut pool = Pool::new();
    let mut other = Pool::new();
    let first = pool.parse(r"^\w+\xff$").unwrap();
    let second = other.parse(r"^\w+\xff$").unwrap();
    assert!(!first.shares_matcher_with(&second));
    let haystacks: [&[u8]; 5] = [b"", b"ab\xff", b"\xff", b"ab", "ab\u{ff}".as_bytes()];
    let expected = [false, true, false, false, false];
    let mut index: usize = 0;
    while index < haystacks.len() {
        assert_eq!(first.is_match(haystacks[index]), expected[index]);
        assert_eq!(second.is_match(haystacks[index]), expected[index]);
        index += 1;
    }
    pool.release(first);
    let fresh = pool.parse(r"^\w+\xff$").unwrap();
    index = 0;
    while index < haystacks.len() {
        assert_eq!(fresh.is_match(haystacks[index]), expected[index]);
        index += 1;
    }
}
