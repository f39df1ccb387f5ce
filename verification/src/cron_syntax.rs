//! Acceptance of cron expressions: six fields, each in the grammar of the cron library.

use vstd::prelude::*;

verus! {

/// The number of fields of a cron expression: seconds, minutes, hours, day of month,
/// month and day of week.
pub const FIELDS: usize = 6;

/// The words with which an expression of another number of fields is refused.
pub const SIX_FIELDS_EXPECTED: &'static str =
    "expected six fields: seconds, minutes, hours, day of month, month, day of week";

/// What `cron::Schedule::from_str` makes of an expression: nothing where it accepts it,
/// else the words of its error.
pub uninterp spec fn cron_rejection(expression: Seq<char>) -> Option<Seq<char>>;

/// Whether a character separates fields: a space, a tab, a line feed or a carriage
/// return.
pub open spec fn is_blank(c: char) -> bool {
    c == ' ' || c == '\t' || c == '\n' || c == '\r'
}

/// Whether a field begins at a place of a text: a character that is not blank stands
/// there, at the head of the text or behind a blank.
pub open spec fn starts_field(text: Seq<char>, i: int) -> bool {
    &&& 0 <= i < text.len()
    &&& !is_blank(text[i])
    &&& (i == 0 || is_blank(text[i - 1]))
}

/// The number of fields of a text: its runs of characters that are not blank.
pub open spec fn field_count(text: Seq<char>) -> nat
    decreases text.len(),
{
    if text.len() == 0 {
        0
    } else {
        field_count(text.drop_last()) + if starts_field(text, text.len() - 1) {
            1nat
        } else {
            0nat
        }
    }
}

/// The verdict on an expression after the cron library gave its own: what the library
/// refuses stays refused, with its words; what it accepts is refused all the same
/// unless it has six fields.
pub open spec fn verdict_after(library: Option<Seq<char>>, expression: Seq<char>) -> Option<
    Seq<char>,
> {
    match library {
        Some(words) => Some(words),
        None => if field_count(expression) == FIELDS {
            None
        } else {
            Some(SIX_FIELDS_EXPECTED@)
        },
    }
}

/// Why an expression may not stand in a recurring reminder; nothing where it may.
pub open spec fn cron_refusal(expression: Seq<char>) -> Option<Seq<char>> {
    verdict_after(cron_rejection(expression), expression)
}

/// Whether an expression is one that a recurring reminder may carry: six fields
/// separated by blanks, which the cron library parses.
pub open spec fn cron_accepted(expression: Seq<char>) -> bool {
    cron_refusal(expression) is None
}

/// The outcome of a check as a contract sees it.
pub open spec fn rejection_of(checked: Result<(), String>) -> Option<Seq<char>> {
    match checked {
        Ok(_) => None,
        Err(detail) => Some(detail@),
    }
}

/// Calls `cron::Schedule::from_str` and drops the schedule: only whether the expression
/// parses is handed out, with the error's own words where it does not.
#[verifier::external_body]
fn parse_outcome(expression: &str) -> (r: Result<(), String>)
    ensures
        rejection_of(r) == cron_rejection(expression@),
{
    match <cron::Schedule as std::str::FromStr>::from_str(expression) {
        Ok(_) => Ok(()),
        Err(e) => Err(e.to_string()),
    }
}

/// The fields of the first `i + 1` characters are those of the first `i`, and one more
/// where a field begins at place `i`.
proof fn lemma_field_count_step(text: Seq<char>, i: int)
    requires
        0 <= i < text.len(),
    ensures
        field_count(text.take(i + 1)) == field_count(text.take(i)) + if starts_field(text, i) {
            1nat
        } else {
            0nat
        },
{
    let head = text.take(i + 1);
    assert(head.drop_last() =~= text.take(i));
    assert(head[i] == text[i]);
    if i > 0 {
        assert(head[i - 1] == text[i - 1]);
    }
}

/// A text has no more fields than characters.
proof fn lemma_field_count_bound(text: Seq<char>)
    ensures
        field_count(text) <= text.len(),
    decreases text.len(),
{
    if text.len() > 0 {
        lemma_field_count_bound(text.drop_last());
    }
}

/// Counts the fields of a text.
pub fn count_fields(text: &str) -> (r: usize)
    ensures
        r == field_count(text@),
{
    let n = text.unicode_len();
    let mut count: usize = 0;
    let mut in_field = false;
    let mut i: usize = 0;
    assert(text@.take(0) =~= Seq::<char>::empty());
    while i < n
        invariant
            0 <= i <= n,
            n == text@.len(),
            count == field_count(text@.take(i as int)),
            in_field == (i > 0 && !is_blank(text@[i - 1])),
        decreases n - i,
    {
        let c = text.get_char(i);
        let blank = c == ' ' || c == '\t' || c == '\n' || c == '\r';
        proof {
            lemma_field_count_step(text@, i as int);
            lemma_field_count_bound(text@.take(i + 1));
        }
        if !blank && !in_field {
            count = count + 1;
        }
        in_field = !blank;
        i = i + 1;
    }
    assert(text@.take(n as int) =~= text@);
    count
}

/// Gives the verdict on an expression, given what the cron library made of it.
pub fn verdict(library: Result<(), String>, expression: &str) -> (r: Result<(), String>)
    ensures
        rejection_of(r) == verdict_after(rejection_of(library), expression@),
{
    match library {
        Err(words) => Err(words),
        Ok(_) => {
            if count_fields(expression) == FIELDS {
                Ok(())
            } else {
                Err(String::from_str(SIX_FIELDS_EXPECTED))
            }
        },
    }
}

/// Checks a cron expression: it must have six fields, for seconds, minutes, hours, day
/// of month, month and day of week, and parse in the grammar of the cron library. The
/// error holds that library's words where it refuses the expression, else a plain
/// sentence on the number of fields.
pub fn check_cron_expression(expression: &str) -> (r: Result<(), String>)
    ensures
        r is Ok <==> cron_accepted(expression@),
        rejection_of(r) == cron_refusal(expression@),
{
    verdict(parse_outcome(expression), expression)
}

} // verus!
