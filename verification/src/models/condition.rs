//! One comparison of a row's value with a literal, as a filter uses it.

use crate::models::row::Row;
use crate::text::{
    chars_of, contains, copy_range, decimal, ends_with, lowercase, lowercase_of, occurs_in, push_decimal,
    range_equals, same_text, starts_with, string_of, texts_of, trim_bounds, trimmed,
};
use vstd::prelude::*;
use vstd::string::StringExecFns;

verus! {

/// How a condition compares.
#[derive(Debug, Clone, Copy, PartialEq, Eq, Structural)]
pub enum Operator {
    Equals,
    NotEquals,
    GreaterThan,
    LessThan,
    GreaterThanEquals,
    LessThanEquals,
    Like,
    In,
}

/// The declared type of a condition's literal.
#[derive(Debug, Clone, Copy, PartialEq, Eq, Structural)]
pub enum DataType {
    String,
    Integer,
    Double,
    Boolean,
    Date,
}

/// One comparison: a column, an operator and a literal.
#[derive(Debug, PartialEq, Eq)]
pub struct Condition {
    /// The column that the condition looks at.
    pub column: String,
    /// The comparison.
    pub operator: Operator,
    /// The literal to compare with.
    pub value: String,
    /// The declared type of the literal.
    pub data_type: DataType,
}

impl Clone for Condition {
    fn clone(&self) -> (c: Self)
        ensures
            c == *self,
    {
        Condition {
            column: self.column.clone(),
            operator: self.operator,
            value: self.value.clone(),
            data_type: self.data_type,
        }
    }
}

/// Why a condition could not be decided.
#[derive(Debug, PartialEq, Eq)]
pub enum EvalError {
    /// The row has no column at this position.
    ColumnNotFound { index: usize },
    /// An ordering comparison met this text, which is no number.
    ParseError { text: String },
}

/// What `EvalError::message` says of a missing column.
pub open spec fn column_not_found_message(index: nat) -> Seq<char> {
    "Column index "@ + decimal(index) + " not found in row"@
}

/// What `EvalError::message` says of a text that is no number.
pub open spec fn not_a_number_message(text: Seq<char>) -> Seq<char> {
    "Cannot parse '"@ + text + "' as number"@
}

impl EvalError {
    /// The error in words.
    pub fn message(&self) -> (m: String)
        ensures
            m@ == match *self {
                EvalError::ColumnNotFound { index } => column_not_found_message(index as nat),
                EvalError::ParseError { text } => not_a_number_message(text@),
            },
    {
        let mut m = String::new();
        match self {
            EvalError::ColumnNotFound { index } => {
                m.append("Column index ");
                push_decimal(&mut m, *index as u64);
                m.append(" not found in row");
                proof {
                    assert(m@ =~= column_not_found_message(*index as nat));
                }
            },
            EvalError::ParseError { text } => {
                m.append("Cannot parse '");
                m.append(text.as_str());
                m.append("' as number");
                proof {
                    assert(m@ =~= not_a_number_message(text@));
                }
            },
        }
        m
    }
}

/// Whether a pattern begins with the wildcard `%`.
pub open spec fn opens_at_start(pattern: Seq<char>) -> bool {
    pattern.len() > 0 && pattern[0] == '%'
}

/// Whether a pattern ends with the wildcard `%`.
pub open spec fn opens_at_end(pattern: Seq<char>) -> bool {
    pattern.len() > 0 && pattern.last() == '%'
}

/// The text of a pattern: the pattern without the wildcard at its start
/// and the wildcard at its end, where it has them. The text of a lone `%`
/// is empty.
pub open spec fn pattern_text(pattern: Seq<char>) -> Seq<char> {
    if opens_at_start(pattern) && opens_at_end(pattern) {
        if pattern.len() < 2 {
            Seq::empty()
        } else {
            pattern.subrange(1, pattern.len() - 1)
        }
    } else if opens_at_start(pattern) {
        pattern.subrange(1, pattern.len() as int)
    } else if opens_at_end(pattern) {
        pattern.subrange(0, pattern.len() - 1)
    } else {
        pattern
    }
}

/// Whether `value` matches `pattern`, given the lower-case forms `text` of
/// the pattern's text and `lowered` of the value. With `%` at both ends the
/// text must occur in the value, with `%` at the start the value must end
/// with it, with `%` at the end the value must begin with it: all three
/// on the lower-case forms. A lone `%` matches every value. A pattern
/// without `%` at either end matches the value that equals it exactly.
pub open spec fn like_matches_lowered(
    pattern: Seq<char>,
    value: Seq<char>,
    text: Seq<char>,
    lowered: Seq<char>,
) -> bool {
    if opens_at_start(pattern) && opens_at_end(pattern) {
        pattern.len() < 2 || occurs_in(text, lowered)
    } else if opens_at_start(pattern) {
        text.is_suffix_of(lowered)
    } else if opens_at_end(pattern) {
        text.is_prefix_of(lowered)
    } else {
        value == pattern
    }
}

/// Whether `value` matches `pattern`, in which `%` at the start, at the end
/// or at both stands for any text.
///
/// Where the pattern has a wildcard, letters match regardless of case: the
/// pattern `%doe%` matches `John Doe`. The comparison is made on the
/// lower-case forms of the pattern's text and of the value, containment
/// for `%x%`, the end of the value for `%x`, its start for `x%`. A `%`
/// inside the pattern's text stands for itself. A pattern without `%` at
/// either end asks for exact equality, letter case included.
pub open spec fn like_matches(pattern: Seq<char>, value: Seq<char>) -> bool {
    like_matches_lowered(pattern, value, lowercase_of(pattern_text(pattern)), lowercase_of(value))
}

/// Whether the characters of `list` from `a` up to `b` are one of the
/// segments into which the commas divide `list`.
pub open spec fn is_segment(list: Seq<char>, a: int, b: int) -> bool {
    &&& 0 <= a <= b <= list.len()
    &&& (a == 0 || list[a - 1] == ',')
    &&& (b == list.len() || list[b] == ',')
    &&& forall|i: int| a <= i < b ==> #[trigger] list[i] != ','
}

/// Whether `item` is one of the segments of the comma-separated `list`,
/// each taken without the white space around it.
pub open spec fn in_list(list: Seq<char>, item: Seq<char>) -> bool {
    exists|a: int, b: int| #[trigger] is_segment(list, a, b) && trimmed(list.subrange(a, b)) == item
}

/// Whether `bits`, read as a 64-bit float, is no number at all.
pub open spec fn is_not_a_number(bits: u64) -> bool {
    bits % 0x8000_0000_0000_0000 > 0x7ff0_0000_0000_0000
}

/// The place of a 64-bit float in the order of the numbers, `bits` being
/// its bit pattern: the pattern itself for a positive float, the negated
/// pattern without the sign bit for a negative one. Both zeros rank 0.
pub open spec fn number_rank(bits: u64) -> int {
    if bits >= 0x8000_0000_0000_0000 {
        -(bits - 0x8000_0000_0000_0000)
    } else {
        bits as int
    }
}

/// Whether the float with the bits `a` is less than the one with the bits `b`.
pub open spec fn number_less(a: u64, b: u64) -> bool {
    !is_not_a_number(a) && !is_not_a_number(b) && number_rank(a) < number_rank(b)
}

/// Whether the floats with the bits `a` and `b` are equal as numbers.
pub open spec fn number_equal(a: u64, b: u64) -> bool {
    !is_not_a_number(a) && !is_not_a_number(b) && number_rank(a) == number_rank(b)
}

impl Operator {
    /// The operator as a query writes it.
    pub open spec fn sign(&self) -> Seq<char> {
        match *self {
            Operator::Equals => "="@,
            Operator::NotEquals => "!="@,
            Operator::GreaterThan => ">"@,
            Operator::LessThan => "<"@,
            Operator::GreaterThanEquals => ">="@,
            Operator::LessThanEquals => "<="@,
            Operator::Like => "LIKE"@,
            Operator::In => "IN"@,
        }
    }

    /// The operator as a query writes it.
    pub fn to_string(&self) -> (s: String)
        ensures
            s@ == self.sign(),
    {
        match self {
            Operator::Equals => String::from_str("="),
            Operator::NotEquals => String::from_str("!="),
            Operator::GreaterThan => String::from_str(">"),
            Operator::LessThan => String::from_str("<"),
            Operator::GreaterThanEquals => String::from_str(">="),
            Operator::LessThanEquals => String::from_str("<="),
            Operator::Like => String::from_str("LIKE"),
            Operator::In => String::from_str("IN"),
        }
    }

    /// Whether the operator compares numbers by their order.
    pub open spec fn orders(&self) -> bool {
        *self is GreaterThan || *self is LessThan || *self is GreaterThanEquals || *self is LessThanEquals
    }

    /// Whether the operator compares numbers by their order.
    pub fn is_ordering(&self) -> (r: bool)
        ensures
            r == self.orders(),
    {
        match self {
            Operator::GreaterThan => true,
            Operator::LessThan => true,
            Operator::GreaterThanEquals => true,
            Operator::LessThanEquals => true,
            _ => false,
        }
    }

    /// Whether the ordering comparison holds between the float with the
    /// bits `left` and the one with the bits `right`.
    pub open spec fn holds_between(&self, left: u64, right: u64) -> bool {
        match *self {
            Operator::GreaterThan => number_less(right, left),
            Operator::LessThan => number_less(left, right),
            Operator::GreaterThanEquals => number_less(right, left) || number_equal(left, right),
            Operator::LessThanEquals => number_less(left, right) || number_equal(left, right),
            _ => false,
        }
    }

    /// Decides an ordering comparison between two floats given by their bits.
    pub fn compare_numbers(&self, left: u64, right: u64) -> (r: bool)
        ensures
            r == self.holds_between(left, right),
    {
        let sign: u64 = 0x8000_0000_0000_0000;
        let top: u64 = 0x7ff0_0000_0000_0000;
        if left % sign > top || right % sign > top {
            return false;
        }
        let left_negative = left >= sign;
        let right_negative = right >= sign;
        let left_size = left % sign;
        let right_size = right % sign;
        let less = if left_negative && right_negative {
            left_size > right_size
        } else if left_negative {
            left_size > 0 || right_size > 0
        } else if right_negative {
            false
        } else {
            left_size < right_size
        };
        let equal = if left_negative == right_negative {
            left_size == right_size
        } else {
            left_size == 0 && right_size == 0
        };
        match self {
            Operator::GreaterThan => !less && !equal,
            Operator::LessThan => less,
            Operator::GreaterThanEquals => !less,
            Operator::LessThanEquals => less || equal,
            _ => false,
        }
    }
}

/// What a condition says of a row.
pub enum Verdict {
    /// The condition holds, or does not.
    Holds(bool),
    /// The row has no column at this position.
    ColumnNotFound(usize),
    /// An ordering comparison met this text, which is no number.
    NotANumber(Seq<char>),
}

/// Whether `r` reports the verdict `v`.
pub open spec fn tells(r: Result<bool, EvalError>, v: Verdict) -> bool {
    match v {
        Verdict::Holds(b) => r == Ok::<bool, EvalError>(b),
        Verdict::ColumnNotFound(i) => r == Err::<bool, EvalError>(EvalError::ColumnNotFound { index: i }),
        Verdict::NotANumber(t) => r matches Err(EvalError::ParseError { text }) && text@ == t,
    }
}

impl Condition {
    /// A condition on `column`.
    pub fn new(column: String, operator: Operator, value: String, data_type: DataType) -> (c: Self)
        ensures
            c.column == column,
            c.operator == operator,
            c.value == value,
            c.data_type == data_type,
    {
        Condition { column, operator, value, data_type }
    }

    /// The condition as a query writes it: the column, the operator and the
    /// literal, with one blank between each two.
    pub fn to_string(&self) -> (s: String)
        ensures
            s@ == self.column@ + " "@ + self.operator.sign() + " "@ + self.value@,
    {
        let mut s = self.column.clone();
        s.append(" ");
        s.append(self.operator.to_string().as_str());
        s.append(" ");
        s.append(self.value.as_str());
        s
    }

    /// What an ordering comparison says of the row's text `row_value`.
    /// `row_number` and `value_number` are the bits of the 64-bit floats
    /// that the row's text and the literal write, `None` for a text that
    /// writes no number. The row's side is read first.
    pub open spec fn numeric_verdict(
        &self,
        row_value: Seq<char>,
        row_number: Option<u64>,
        value_number: Option<u64>,
    ) -> Verdict {
        match (row_number, value_number) {
            (None, _) => Verdict::NotANumber(row_value),
            (Some(_), None) => Verdict::NotANumber(self.value@),
            (Some(left), Some(right)) => Verdict::Holds(self.operator.holds_between(left, right)),
        }
    }

    /// What the condition says of the text `row_value`.
    pub open spec fn verdict_on(
        &self,
        row_value: Seq<char>,
        row_number: Option<u64>,
        value_number: Option<u64>,
    ) -> Verdict {
        match self.operator {
            Operator::Equals => Verdict::Holds(row_value == self.value@),
            Operator::NotEquals => Verdict::Holds(row_value != self.value@),
            Operator::Like => Verdict::Holds(like_matches(self.value@, row_value)),
            Operator::In => Verdict::Holds(in_list(self.value@, row_value)),
            _ => self.numeric_verdict(row_value, row_number, value_number),
        }
    }

    /// What the condition says of column `column_index` of a row with the
    /// values `values`.
    pub open spec fn verdict(
        &self,
        values: Seq<Seq<char>>,
        column_index: usize,
        row_number: Option<u64>,
        value_number: Option<u64>,
    ) -> Verdict {
        if column_index >= values.len() {
            Verdict::ColumnNotFound(column_index)
        } else {
            self.verdict_on(values[column_index as int], row_number, value_number)
        }
    }

    /// Decides an ordering comparison from what the two sides read as
    /// numbers. A side that is no number is an error that names its text;
    /// the row's side is looked at first.
    pub fn compare_numeric(&self, row_value: &str, row_number: Option<u64>, value_number: Option<u64>) -> (r:
        Result<bool, EvalError>)
        ensures
            tells(r, self.numeric_verdict(row_value@, row_number, value_number)),
    {
        match row_number {
            None => Err(EvalError::ParseError { text: row_value.to_owned() }),
            Some(left) => match value_number {
                None => Err(EvalError::ParseError { text: self.value.clone() }),
                Some(right) => Ok(self.operator.compare_numbers(left, right)),
            },
        }
    }

    /// The text of the literal as a pattern: the literal without the
    /// wildcard at its start and the wildcard at its end.
    pub fn like_text(&self) -> (text: String)
        ensures
            text@ == pattern_text(self.value@),
    {
        let pattern = chars_of(self.value.as_str());
        let n = pattern.len();
        let open_start = n > 0 && pattern[0] == '%';
        let open_end = n > 0 && pattern[n - 1] == '%';
        if open_start && open_end {
            if n < 2 {
                String::new()
            } else {
                string_of(&copy_range(&pattern, 1, n - 1))
            }
        } else if open_start {
            string_of(&copy_range(&pattern, 1, n))
        } else if open_end {
            string_of(&copy_range(&pattern, 0, n - 1))
        } else {
            assert(pattern@.subrange(0, n as int) =~= pattern@);
            string_of(&copy_range(&pattern, 0, n))
        }
    }

    /// Whether `row_value` matches the literal as a pattern, `text` being
    /// the lower-case form of the pattern's text and `lowered` the
    /// lower-case form of `row_value`.
    pub fn like_lowered(&self, row_value: &str, text: &str, lowered: &str) -> (r: Result<bool, EvalError>)
        ensures
            r == Ok::<bool, EvalError>(like_matches_lowered(self.value@, row_value@, text@, lowered@)),
    {
        let pattern = chars_of(self.value.as_str());
        let n = pattern.len();
        let open_start = n > 0 && pattern[0] == '%';
        let open_end = n > 0 && pattern[n - 1] == '%';
        if open_start && open_end {
            if n < 2 {
                Ok(true)
            } else {
                Ok(contains(&chars_of(lowered), &chars_of(text)))
            }
        } else if open_start {
            Ok(ends_with(&chars_of(lowered), &chars_of(text)))
        } else if open_end {
            Ok(starts_with(&chars_of(lowered), &chars_of(text)))
        } else {
            Ok(same_text(row_value, self.value.as_str()))
        }
    }

    /// Whether `row_value` matches the literal as a pattern. Where the
    /// pattern has a wildcard, letters match regardless of case.
    pub fn evaluate_like(&self, row_value: &str) -> (r: Result<bool, EvalError>)
        ensures
            r == Ok::<bool, EvalError>(like_matches(self.value@, row_value@)),
    {
        let text = lowercase(self.like_text().as_str());
        let lowered = lowercase(row_value);
        self.like_lowered(row_value, text.as_str(), lowered.as_str())
    }

    /// Whether `row_value` is one of the comma-separated items of the
    /// literal, each taken without the white space around it.
    pub fn evaluate_in(&self, row_value: &str) -> (r: Result<bool, EvalError>)
        ensures
            r == Ok::<bool, EvalError>(in_list(self.value@, row_value@)),
    {
        let list = chars_of(self.value.as_str());
        let item = chars_of(row_value);
        let n = list.len();
        let mut start: usize = 0;
        loop
            invariant
                0 <= start <= n,
                n == list@.len(),
                list@ == self.value@,
                item@ == row_value@,
                start == 0 || list@[start - 1] == ',',
                forall|a: int, b: int| #[trigger]
                    is_segment(list@, a, b) && a < start ==> trimmed(list@.subrange(a, b)) != item@,
            decreases n - start,
        {
            let mut end: usize = start;
            while end < n && list[end] != ','
                invariant
                    start <= end <= n,
                    n == list@.len(),
                    forall|i: int| start <= i < end ==> #[trigger] list@[i] != ',',
                decreases n - end,
            {
                end += 1;
            }
            assert(is_segment(list@, start as int, end as int));
            let bounds = trim_bounds(&list, start, end);
            if range_equals(&list, bounds.0, bounds.1, &item) {
                return Ok(true);
            }
            proof {
                assert forall|a: int, b: int| #[trigger]
                    is_segment(list@, a, b) && a < end + 1 implies trimmed(list@.subrange(a, b)) != item@ by {
                    if a >= start {
                        if a > start {
                            assert(list@[a - 1] != ',');
                        }
                        if b < end {
                            assert(list@[b] != ',');
                        }
                        if b > end {
                            assert(list@[end as int] != ',');
                        }
                        assert(a == start && b == end);
                    }
                }
            }
            if end == n {
                proof {
                    assert forall|a: int, b: int| #[trigger] is_segment(list@, a, b) implies trimmed(
                        list@.subrange(a, b),
                    ) != item@ by {
                        assert(a < end + 1);
                    }
                }
                return Ok(false);
            }
            start = end + 1;
        }
    }

    /// Decides the condition for column `column_index` of `row`.
    ///
    /// Equality, patterns and lists compare texts. The four ordering
    /// operators compare numbers: `row_number` and `value_number` are the
    /// bits of the 64-bit floats that the row's value and the literal write,
    /// `None` for a text that writes no number. They are not looked at for
    /// the other operators.
    pub fn evaluate(
        &self,
        row: &Row,
        column_index: usize,
        row_number: Option<u64>,
        value_number: Option<u64>,
    ) -> (r: Result<bool, EvalError>)
        ensures
            tells(r, self.verdict(texts_of(row.values@), column_index, row_number, value_number)),
    {
        let row_value = match row.get_value(column_index) {
            Some(value) => value,
            None => {
                return Err(EvalError::ColumnNotFound { index: column_index });
            },
        };
        assert(texts_of(row.values@)[column_index as int] == row_value@);
        match self.operator {
            Operator::Equals => Ok(*row_value == self.value),
            Operator::NotEquals => Ok(*row_value != self.value),
            Operator::Like => self.evaluate_like(row_value.as_str()),
            Operator::In => self.evaluate_in(row_value.as_str()),
            _ => self.compare_numeric(row_value.as_str(), row_number, value_number),
        }
    }
}

} // verus!
