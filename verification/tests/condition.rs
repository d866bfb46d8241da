use distsql::models::condition::{Condition, DataType, EvalError, Operator};
use distsql::models::row::Row;

fn bits(text: &str) -> Option<u64> {
    text.parse::<f64>().ok().map(f64::to_bits)
}

fn row_of(values: &[&str]) -> Row {
    Row::new(values.iter().map(|s| s.to_string()).collect(), "t".to_string())
}

fn cond(operator: Operator, value: &str) -> Condition {
    Condition::new("c".to_string(), operator, value.to_string(), DataType::String)
}

/// Evaluates the way a caller does: both sides are read as numbers first.
fn eval(c: &Condition, row: &Row, index: usize) -> Result<bool, EvalError> {
    let row_number = row.get_value(index).and_then(|v| bits(v));
    c.evaluate(row, index, row_number, bits(&c.value))
}

fn holds(operator: Operator, value: &str, row_value: &str) -> bool {
    eval(&cond(operator, value), &row_of(&[row_value]), 0).unwrap()
}

#[test]
fn new_condition_keeps_its_parts() {
    let c = Condition::new("age".to_string(), Operator::GreaterThan, "18".to_string(), DataType::Integer);
    assert_eq!(c.column, "age");
    assert_eq!(c.operator, Operator::GreaterThan);
    assert_eq!(c.value, "18");
    assert_eq!(c.data_type, DataType::Integer);
}

#[test]
fn equals_compares_texts() {
    assert!(holds(Operator::Equals, "abc", "abc"));
    assert!(!holds(Operator::Equals, "abc", "ABC"));
    assert!(!holds(Operator::Equals, "1.0", "1"));
    assert!(holds(Operator::NotEquals, "1.0", "1"));
    assert!(!holds(Operator::NotEquals, "abc", "abc"));
}

#[test]
fn like_with_percent_at_both_ends_is_containment() {
    assert!(holds(Operator::Like, "%doe%", "John Doe"));
    assert!(!holds(Operator::Like, "%doe%", "Jane Smith"));
    assert!(holds(Operator::Like, "%Doe%", "John Doe"));
    assert!(holds(Operator::Like, "%ohn D%", "John Doe"));
    assert!(!holds(Operator::Like, "%Doe%", "Jane Smith"));
    assert!(holds(Operator::Like, "%%", "anything"));
    assert!(holds(Operator::Like, "%%", ""));
}

#[test]
fn like_ignores_letter_case_where_it_has_a_wildcard() {
    assert!(holds(Operator::Like, "%DOE%", "john doe"));
    assert!(holds(Operator::Like, "%doe", "John DOE"));
    assert!(holds(Operator::Like, "JOHN%", "John Doe"));
    assert!(!holds(Operator::Like, "%dough%", "John Doe"));
    assert!(holds(Operator::Like, "%ÉCOLE%", "une école"));
}

#[test]
fn like_without_wildcard_compares_characters_exactly() {
    assert!(!holds(Operator::Like, "john doe", "John Doe"));
    assert!(holds(Operator::Like, "John Doe", "John Doe"));
}

#[test]
fn like_with_percent_at_start_is_suffix() {
    assert!(holds(Operator::Like, "%Doe", "John Doe"));
    assert!(!holds(Operator::Like, "%John", "John Doe"));
    assert!(!holds(Operator::Like, "%John Doe and more", "John Doe"));
}

#[test]
fn like_with_percent_at_end_is_prefix() {
    assert!(holds(Operator::Like, "John%", "John Doe"));
    assert!(!holds(Operator::Like, "Doe%", "John Doe"));
}

#[test]
fn like_without_percent_is_equality() {
    assert!(holds(Operator::Like, "John Doe", "John Doe"));
    assert!(!holds(Operator::Like, "John", "John Doe"));
}

#[test]
fn like_takes_inner_percent_literally() {
    assert!(holds(Operator::Like, "a%b", "a%b"));
    assert!(!holds(Operator::Like, "a%b", "axb"));
    assert!(holds(Operator::Like, "%a%b%", "xa%by"));
    assert!(!holds(Operator::Like, "%a%b%", "xaaby"));
}

#[test]
fn like_single_percent_matches_everything() {
    assert!(holds(Operator::Like, "%", ""));
    assert!(holds(Operator::Like, "%", "John Doe"));
}

#[test]
fn like_works_on_characters_beyond_ascii() {
    assert!(holds(Operator::Like, "%é%", "café au lait"));
    assert!(holds(Operator::Like, "%é", "café"));
    assert!(holds(Operator::Like, "é%", "école"));
}

#[test]
fn in_splits_on_commas_and_trims() {
    assert!(holds(Operator::In, "A, B,C", "A"));
    assert!(holds(Operator::In, "A, B,C", "B"));
    assert!(holds(Operator::In, "A, B,C", "C"));
    assert!(!holds(Operator::In, "A, B,C", "D"));
    assert!(!holds(Operator::In, "A, B,C", " B"));
    assert!(!holds(Operator::In, "A, B,C", "A, B"));
}

#[test]
fn in_knows_empty_items() {
    assert!(holds(Operator::In, "", ""));
    assert!(holds(Operator::In, "A,,B", ""));
    assert!(holds(Operator::In, "A, ", ""));
    assert!(!holds(Operator::In, "A,B", ""));
}

#[test]
fn in_trims_all_white_space() {
    assert!(holds(Operator::In, "\tA\n,\u{a0}B\u{3000}", "A"));
    assert!(holds(Operator::In, "\tA\n,\u{a0}B\u{3000}", "B"));
    assert!(holds(Operator::In, "a b , c", "a b"));
}

#[test]
fn ordering_compares_numbers() {
    assert!(holds(Operator::GreaterThan, "18", "30"));
    assert!(!holds(Operator::GreaterThan, "30", "30"));
    assert!(holds(Operator::GreaterThanEquals, "30", "30.0"));
    assert!(holds(Operator::LessThan, "100", "9"));
    assert!(!holds(Operator::LessThan, "9", "100"));
    assert!(holds(Operator::LessThanEquals, "9", "9"));
    assert!(holds(Operator::GreaterThan, "-2", "-1.5"));
    assert!(holds(Operator::LessThan, "1e3", "999.5"));
    assert!(holds(Operator::LessThan, "0.5", "-0.25"));
}

#[test]
fn ordering_treats_both_zeros_alike() {
    assert!(holds(Operator::GreaterThanEquals, "0", "-0"));
    assert!(holds(Operator::LessThanEquals, "0", "-0"));
    assert!(!holds(Operator::GreaterThan, "-0", "0"));
    assert!(!holds(Operator::LessThan, "0", "-0"));
}

#[test]
fn ordering_with_not_a_number_never_holds() {
    for op in [
        Operator::GreaterThan,
        Operator::LessThan,
        Operator::GreaterThanEquals,
        Operator::LessThanEquals,
    ] {
        assert!(!holds(op, "NaN", "1"));
        assert!(!holds(op, "1", "NaN"));
        assert!(!holds(op, "NaN", "NaN"));
    }
}

#[test]
fn ordering_knows_infinity() {
    assert!(holds(Operator::GreaterThan, "1e308", "inf"));
    assert!(holds(Operator::LessThan, "-1e308", "-inf"));
    assert!(holds(Operator::GreaterThanEquals, "inf", "inf"));
}

#[test]
fn compare_numbers_agrees_with_floats() {
    let samples = [
        0.0f64, -0.0, 1.0, -1.0, 0.5, -0.5, 1e300, -1e300, f64::MIN_POSITIVE, f64::MAX, f64::MIN,
        f64::INFINITY, f64::NEG_INFINITY, f64::NAN, 5e-324, -5e-324,
    ];
    for a in samples {
        for b in samples {
            assert_eq!(Operator::GreaterThan.compare_numbers(a.to_bits(), b.to_bits()), a > b);
            assert_eq!(Operator::LessThan.compare_numbers(a.to_bits(), b.to_bits()), a < b);
            assert_eq!(Operator::GreaterThanEquals.compare_numbers(a.to_bits(), b.to_bits()), a >= b);
            assert_eq!(Operator::LessThanEquals.compare_numbers(a.to_bits(), b.to_bits()), a <= b);
            assert!(!Operator::Equals.compare_numbers(a.to_bits(), b.to_bits()));
        }
    }
}

#[test]
fn greater_than_on_text_is_a_parse_error() {
    let c = cond(Operator::GreaterThan, "18");
    match eval(&c, &row_of(&["abc"]), 0) {
        Err(EvalError::ParseError { text }) => assert_eq!(text, "abc"),
        other => panic!("unexpected: {:?}", other),
    }
}

#[test]
fn ordering_on_text_literal_is_a_parse_error() {
    let c = cond(Operator::LessThanEquals, "many");
    match eval(&c, &row_of(&["3"]), 0) {
        Err(EvalError::ParseError { text }) => assert_eq!(text, "many"),
        other => panic!("unexpected: {:?}", other),
    }
    // Where neither side is a number, the row's side is named.
    match eval(&c, &row_of(&["few"]), 0) {
        Err(EvalError::ParseError { text }) => assert_eq!(text, "few"),
        other => panic!("unexpected: {:?}", other),
    }
}

#[test]
fn missing_column_is_an_error() {
    let row = row_of(&["a", "b"]);
    for op in [Operator::Equals, Operator::GreaterThan, Operator::Like, Operator::In] {
        match eval(&cond(op, "1"), &row, 2) {
            Err(EvalError::ColumnNotFound { index }) => assert_eq!(index, 2),
            other => panic!("unexpected: {:?}", other),
        }
    }
    assert!(eval(&cond(Operator::Equals, "b"), &row, 1).unwrap());
}

#[test]
fn numbers_are_not_looked_at_for_texts() {
    let c = cond(Operator::Equals, "abc");
    let row = row_of(&["abc"]);
    assert_eq!(c.evaluate(&row, 0, None, None).unwrap(), true);
    assert_eq!(c.evaluate(&row, 0, Some(1), Some(2)).unwrap(), true);
}

#[test]
fn evaluation_leaves_row_and_condition_alone() {
    let c = cond(Operator::In, "A, B,C");
    let row = row_of(&["B", "x"]);
    assert!(eval(&c, &row, 0).unwrap());
    assert!(eval(&c, &row, 0).unwrap());
    assert_eq!(c.value, "A, B,C");
    assert_eq!(row.values, vec!["B".to_string(), "x".to_string()]);
}

#[test]
fn parts_of_evaluate_can_be_called_alone() {
    let c = cond(Operator::Like, "J%");
    assert_eq!(c.evaluate_like("John").unwrap(), true);
    assert_eq!(c.evaluate_like("john").unwrap(), true);
    assert_eq!(c.like_text(), "J");
    assert_eq!(cond(Operator::Like, "%a%b%").like_text(), "a%b");
    assert_eq!(cond(Operator::Like, "%").like_text(), "");
    assert_eq!(cond(Operator::Like, "%x").like_text(), "x");
    assert_eq!(cond(Operator::Like, "plain").like_text(), "plain");
    // The two last arguments are taken as the lower-case forms, whatever they are.
    assert_eq!(c.like_lowered("John", "j", "john").unwrap(), true);
    assert_eq!(c.like_lowered("John", "J", "john").unwrap(), false);
    assert_eq!(cond(Operator::Like, "%doe%").like_lowered("John Doe", "doe", "john doe").unwrap(), true);
    assert_eq!(cond(Operator::Like, "%doe%").like_lowered("Jane Smith", "doe", "jane smith").unwrap(), false);
    assert_eq!(cond(Operator::Like, "abc").like_lowered("abc", "zzz", "yyy").unwrap(), true);
    let d = cond(Operator::In, "x,y");
    assert_eq!(d.evaluate_in("y").unwrap(), true);
    let e = cond(Operator::GreaterThan, "1");
    assert_eq!(e.compare_numeric("2", bits("2"), bits("1")).unwrap(), true);
}

#[test]
fn errors_in_words() {
    assert_eq!(EvalError::ColumnNotFound { index: 7 }.message(), "Column index 7 not found in row");
    assert_eq!(
        EvalError::ParseError { text: "abc".to_string() }.message(),
        "Cannot parse 'abc' as number"
    );
}

#[test]
fn operators_and_conditions_in_words() {
    assert_eq!(Operator::Equals.to_string(), "=");
    assert_eq!(Operator::NotEquals.to_string(), "!=");
    assert_eq!(Operator::GreaterThan.to_string(), ">");
    assert_eq!(Operator::LessThan.to_string(), "<");
    assert_eq!(Operator::GreaterThanEquals.to_string(), ">=");
    assert_eq!(Operator::LessThanEquals.to_string(), "<=");
    assert_eq!(Operator::Like.to_string(), "LIKE");
    assert_eq!(Operator::In.to_string(), "IN");
    let c = Condition::new("age".to_string(), Operator::GreaterThanEquals, "18".to_string(), DataType::Integer);
    assert_eq!(c.to_string(), "age >= 18");
    assert!(Operator::LessThan.is_ordering());
    assert!(!Operator::Like.is_ordering());
}

#[test]
fn a_copied_condition_is_the_same() {
    let c = Condition::new("age".to_string(), Operator::In, "1,2".to_string(), DataType::Integer);
    let d = c.clone();
    assert_eq!(d.column, "age");
    assert_eq!(d.operator, Operator::In);
    assert_eq!(d.value, "1,2");
    assert_eq!(d.data_type, DataType::Integer);
}

/// A small generator of numbers, the same on every run.
struct Numbers(u64);

impl Numbers {
    fn next(&mut self) -> u64 {
        self.0 = self.0.wrapping_mul(6364136223846793005).wrapping_add(1442695040888963407);
        self.0 >> 33
    }

    fn text(&mut self, alphabet: &[char], longest: u64) -> String {
        let n = self.next() % (longest + 1);
        (0..n).map(|_| alphabet[(self.next() % alphabet.len() as u64) as usize]).collect()
    }
}

#[test]
fn like_agrees_with_the_standard_searches() {
    let alphabet = ['a', 'B', 'b', '%', 'é', 'É'];
    let mut numbers = Numbers(7);
    for _ in 0..3000 {
        let pattern = numbers.text(&alphabet, 5);
        let value = numbers.text(&alphabet, 6);
        let expected = if pattern == "%" {
            true
        } else if pattern.starts_with('%') && pattern.ends_with('%') {
            value.to_lowercase().contains(&pattern[1..pattern.len() - 1].to_lowercase())
        } else if pattern.starts_with('%') {
            value.to_lowercase().ends_with(&pattern[1..].to_lowercase())
        } else if pattern.ends_with('%') {
            value.to_lowercase().starts_with(&pattern[..pattern.len() - 1].to_lowercase())
        } else {
            value == pattern
        };
        assert_eq!(holds(Operator::Like, &pattern, &value), expected, "{:?} like {:?}", value, pattern);
    }
}

#[test]
fn in_agrees_with_split_and_trim() {
    let alphabet = ['a', 'b', ',', ' ', '\t'];
    let mut numbers = Numbers(11);
    for _ in 0..3000 {
        let list = numbers.text(&alphabet, 8);
        let item = numbers.text(&['a', 'b', ' '], 3);
        let expected = list.split(',').map(|s| s.trim()).any(|s| s == item);
        assert_eq!(holds(Operator::In, &list, &item), expected, "{:?} in {:?}", item, list);
    }
}
