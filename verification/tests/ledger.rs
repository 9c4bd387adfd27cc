use grademapper::ledger::{Average, AvgDisplay, GradeEntry, Ledger, LedgerError};
use grademapper::validate::ValidationError;

fn value_of(a: Average) -> f64 {
    a.num as f64 / a.den as f64
}

#[test]
fn new_ledger_is_empty_and_blank() {
    let l = Ledger::new();
    assert!(l.is_empty());
    assert_eq!(l.len(), 0);
    assert_eq!(l.avg, AvgDisplay::Blank);
    assert_eq!(l.average(), Err(LedgerError::EmptyLedgerAverage));
}

#[test]
fn average_of_equal_weights_is_four() {
    // Entries (5, 1.0) and (3, 1.0): average (5 + 3) / 2 = 4.0.
    let mut l = Ledger::new();
    assert_eq!(l.submit("5", 10), Ok(()));
    assert_eq!(l.submit("3", 10), Ok(()));
    let a = l.average().unwrap();
    assert_eq!(a, Average { num: 80, den: 20 });
    assert_eq!(value_of(a), 4.0);
    assert_eq!(l.avg, AvgDisplay::Value(a));
}

#[test]
fn average_of_mixed_weights_is_exact() {
    // Entries (5, 1.5) and (4, 1.0): average (7.5 + 4) / 2.5 = 4.6.
    let mut l = Ledger::new();
    assert_eq!(l.submit("5", 15), Ok(()));
    assert_eq!(l.submit("4", 10), Ok(()));
    let a = l.average().unwrap();
    assert_eq!(a, Average { num: 115, den: 25 });
    assert_eq!(value_of(a), 4.6);
}

#[test]
fn remove_last_on_empty_ledger_errors() {
    let mut l = Ledger::new();
    assert_eq!(l.remove_last(), Err(LedgerError::EmptyLedgerOnRemove));
    assert!(l.is_empty());
    assert_eq!(l.avg, AvgDisplay::Unavailable(LedgerError::EmptyLedgerOnRemove));
}

#[test]
fn submit_then_remove_restores_ledger_and_average() {
    // For every valid grade and several positive weights: submitting and
    // immediately removing restores the entries and the prior average.
    for grade in 1..=5u8 {
        for weight in [1u32, 10, 12, 15, 1000] {
            let mut l = Ledger::new();
            assert_eq!(l.submit("2", 10), Ok(()));
            assert_eq!(l.submit("4", 13), Ok(()));
            let entries_before = l.entries.clone();
            let avg_before = l.average();
            let text = format!("{}", grade);
            assert_eq!(l.submit(&text, weight), Ok(()));
            assert_eq!(l.remove_last(), Ok(()));
            assert_eq!(l.entries, entries_before);
            assert_eq!(l.average(), avg_before);
        }
    }
}

#[test]
fn submit_then_remove_on_empty_ledger_restores_emptiness() {
    for grade in 1..=5u8 {
        let mut l = Ledger::new();
        let text = format!("{}", grade);
        assert_eq!(l.submit(&text, 12), Ok(()));
        assert_eq!(l.remove_last(), Ok(()));
        assert!(l.is_empty());
        assert_eq!(l.average(), Err(LedgerError::EmptyLedgerAverage));
    }
}

#[test]
fn average_always_lies_in_the_grade_domain() {
    let mut l = Ledger::new();
    for (text, weight) in [("1", 10), ("5", 15), ("2", 13), ("4", 14), ("3", 12)] {
        assert_eq!(l.submit(text, weight), Ok(()));
        let a = l.average().unwrap();
        let value = value_of(a);
        assert!((1.0..=5.0).contains(&value));
    }
}

#[test]
fn remove_after_two_submissions_leaves_first_average() {
    // submit(4, 1.0), submit(5, 1.2), remove_last: the average is again the
    // single-entry average of (4, 1.0), that is 4.0.
    let mut l = Ledger::new();
    assert_eq!(l.submit("4", 10), Ok(()));
    assert_eq!(l.submit("5", 12), Ok(()));
    assert_eq!(l.remove_last(), Ok(()));
    let a = l.average().unwrap();
    assert_eq!(a, Average { num: 40, den: 10 });
    assert_eq!(value_of(a), 4.0);
    assert_eq!(l.avg, AvgDisplay::Value(a));
}

#[test]
fn average_is_stable_without_mutation() {
    let mut l = Ledger::new();
    assert_eq!(l.submit("5", 15), Ok(()));
    assert_eq!(l.submit("2", 12), Ok(()));
    let first = l.average();
    let second = l.average();
    let third = l.average();
    assert_eq!(first, second);
    assert_eq!(second, third);
}

#[test]
fn rejected_submission_displaces_the_display() {
    let mut l = Ledger::new();
    assert_eq!(l.submit("5", 10), Ok(()));
    assert_eq!(l.submit("abc", 10), Err(ValidationError::NotANumber));
    // The entry list is untouched, but the display now shows the error.
    assert_eq!(l.entries, vec![GradeEntry { grade: 5, weight: 10 }]);
    assert_eq!(l.avg, AvgDisplay::Invalid(ValidationError::NotANumber));
    // A successful submission brings the average back.
    assert_eq!(l.submit("5", 10), Ok(()));
    assert_eq!(l.avg, AvgDisplay::Value(Average { num: 100, den: 20 }));
}

#[test]
fn out_of_range_submission_is_rejected() {
    let mut l = Ledger::new();
    assert_eq!(l.submit("6", 10), Err(ValidationError::OutOfRange));
    assert_eq!(l.submit("0", 10), Err(ValidationError::OutOfRange));
    assert!(l.is_empty());
    assert_eq!(l.avg, AvgDisplay::Invalid(ValidationError::OutOfRange));
}

#[test]
fn removing_the_only_entry_leaves_no_average() {
    let mut l = Ledger::new();
    assert_eq!(l.submit("3", 10), Ok(()));
    assert_eq!(l.remove_last(), Ok(()));
    assert!(l.is_empty());
    assert_eq!(l.avg, AvgDisplay::Unavailable(LedgerError::EmptyLedgerAverage));
    assert_eq!(l.average(), Err(LedgerError::EmptyLedgerAverage));
}

#[test]
fn entries_keep_insertion_order() {
    let mut l = Ledger::new();
    assert_eq!(l.submit("1", 10), Ok(()));
    assert_eq!(l.submit("5", 15), Ok(()));
    assert_eq!(l.submit("3", 12), Ok(()));
    assert_eq!(
        l.entries,
        vec![
            GradeEntry { grade: 1, weight: 10 },
            GradeEntry { grade: 5, weight: 15 },
            GradeEntry { grade: 3, weight: 12 },
        ]
    );
}
