//! Parsing of driver inputs: policy names, scheduler names and `from:to`
//! rule notation, plus rulebook construction errors.

use charsub::{Error, Pattern, RuleCell, Rulebook, SchedulerInput};
use charsub::input::parse_rule;

#[test]
fn pattern_names_parse_case_insensitively() {
    assert!(matches!(Pattern::from_ascii(b"const"), Ok(Pattern::Const)));
    assert!(matches!(Pattern::from_ascii(b"Const"), Ok(Pattern::Const)));
    assert!(matches!(Pattern::from_ascii(b"MODULO"), Ok(Pattern::Modulo)));
    assert!(matches!(Pattern::from_ascii(b"modulo"), Ok(Pattern::Modulo)));
    assert!(matches!(Pattern::from_ascii(b"neither"), Err(Error::BadInput(_))));
    assert!(matches!(Pattern::from_ascii(b""), Err(Error::BadInput(_))));
}

#[test]
fn scheduler_names_parse_case_insensitively() {
    assert!(matches!(
        SchedulerInput::from_ascii(b"multithread"),
        Ok(SchedulerInput::ThreadPool)
    ));
    assert!(matches!(SchedulerInput::from_ascii(b"Multi"), Ok(SchedulerInput::ThreadPool)));
    assert!(matches!(SchedulerInput::from_ascii(b"single"), Ok(SchedulerInput::SingleThread)));
    assert!(matches!(SchedulerInput::from_ascii(b"ASYNC"), Ok(SchedulerInput::AsyncRuntime)));
    assert!(matches!(SchedulerInput::from_ascii(b"serial"), Err(Error::BadInput(_))));
}

#[test]
fn rules_parse_from_colon_notation() {
    let (root, cell) = parse_rule(b"1:ilLI").unwrap();
    assert_eq!(root, b'1');
    assert_eq!(cell, RuleCell::from_slice(b"ilLI"));

    let (root, cell) = parse_rule(b"a:b:c").unwrap();
    assert_eq!(root, b'a');
    assert_eq!(cell, RuleCell::from_slice(b"b"));

    let (root, cell) = parse_rule(b"x:").unwrap();
    assert_eq!(root, b'x');
    assert_eq!(cell, RuleCell::from_slice(b""));

    assert!(matches!(parse_rule(b"abc"), Err(Error::BadInput(_))));
    assert!(matches!(parse_rule(b":x"), Err(Error::BadInput(_))));
    assert!(matches!(parse_rule(b""), Err(Error::BadInput(_))));
}

#[test]
fn rulebook_refuses_empty_replacements() {
    let err = Rulebook::from_pairs(vec![(b'a', RuleCell::from_slice(b""))]).unwrap_err();
    let message = err.into_message();
    assert!(!message.is_empty());
}

#[test]
fn rulebook_looks_up_only_its_triggers() {
    let book = Rulebook::from_pairs(vec![
        (b'a', RuleCell::from_slice(b"x")),
        (b'b', RuleCell::from_slice(b"yz")),
    ])
    .unwrap();
    assert!(book.lookup(b'a').is_some());
    assert!(book.lookup(b'b').is_some());
    assert!(book.lookup(b'c').is_none());
}
