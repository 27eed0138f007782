//! The behaviour of the permutation unit and the cursor on one buffer.

use charsub::{Cell, Cursor, Output, Permutation, RuleCell, RuleEntry, Rulebook};

#[test]
fn behavior_commit() {
    let cell = Cell::from_slice(b"...");
    let rules = RuleEntry::Multi(RuleCell::from_slice(b"AB"));

    let mut permutate = Permutation::new(cell, rules, 0);

    for x in vec![b"A..", b"B.."] {
        let buf = Cell::from_slice(x);
        assert_eq!(Some(buf), permutate.commit());
    }

    assert_eq!(None, permutate.commit());
    assert_eq!(None, permutate.commit());
}

#[test]
fn behavior_step() {
    let cell = Cell::from_slice(b"...");

    let rules: Rulebook =
        Rulebook::from_pairs(vec![(b'.', RuleCell::from_slice(b"AB"))]).unwrap();

    let mut cursor = Cursor::new(&cell, &rules);

    for cell_idx in 0..3 {
        let permute = cursor.step();
        match permute {
            Output::Permute(permute) => {
                assert_eq!(permute.index(), cell_idx)
            }
            Output::NoPermute(idx) => assert_eq!(cell_idx, idx),
            Output::EndOfLine => assert_eq!(1, 2),
        }
    }
    assert!(!cursor.reset_flag);
    assert_eq!(cursor.step(), Output::EndOfLine);
    assert!(cursor.reset_flag);
}

#[test]
fn unit_getters_describe_the_site() {
    let cell = Cell::from_slice(b"abc");
    let rules = RuleEntry::Multi(RuleCell::from_slice(b"xyz"));
    let mut unit = Permutation::new(cell, rules, 1);

    assert_eq!(unit.changes(), 3);
    assert_eq!(unit.index(), 1);
    assert_eq!(unit.len(), 3);
    assert_eq!(unit.rules(), &RuleEntry::Multi(RuleCell::from_slice(b"xyz")));

    assert!(unit.peek_next());
    assert_eq!(unit.commit(), Some(Cell::from_slice(b"axc")));
    assert_eq!(unit.commit(), Some(Cell::from_slice(b"ayc")));
    assert_eq!(unit.commit(), Some(Cell::from_slice(b"azc")));
    assert!(!unit.peek_next());
    assert_eq!(unit.commit(), None);
}

#[test]
fn single_rule_substitutes_once() {
    let cell = Cell::from_slice(b"a.");
    let mut unit = Permutation::new(cell, RuleEntry::Single(b'!'), 1);

    assert!(unit.peek_next());
    assert_eq!(unit.commit(), Some(Cell::from_slice(b"a!")));
    assert!(!unit.peek_next());
    assert_eq!(unit.commit(), None);
}

#[test]
fn rule_entry_length_and_flattening() {
    let single = RuleEntry::Single(b'x');
    assert_eq!(single.len(), 1);
    assert_eq!(single.duplicate().into_cell(), RuleCell::from_slice(b"x"));

    let multi = RuleEntry::Multi(RuleCell::from_slice(b"pqr"));
    assert_eq!(multi.len(), 3);
    assert_eq!(multi.duplicate().into_cell(), RuleCell::from_slice(b"pqr"));
}

#[test]
fn cursor_reports_sites_against_the_rulebook() {
    let cell = Cell::from_slice(b"x.y");
    let rules: Rulebook =
        Rulebook::from_pairs(vec![(b'.', RuleCell::from_slice(b"AB"))]).unwrap();
    let mut cursor = Cursor::new(&cell, &rules);

    assert_eq!(cursor.buffer(), &Cell::from_slice(b"x.y"));
    assert_eq!(cursor.step(), Output::NoPermute(0));
    match cursor.step() {
        Output::Permute(unit) => {
            assert_eq!(unit.index(), 1);
            assert_eq!(unit.changes(), 2);
        }
        other => panic!("expected a substitution site, got {:?}", other),
    }
    assert_eq!(cursor.step(), Output::NoPermute(2));
    assert_eq!(cursor.step(), Output::EndOfLine);
}
