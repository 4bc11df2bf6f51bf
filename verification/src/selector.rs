//! Selectors: which windows an action is aimed at.

use vstd::prelude::*;
use vstd::string::*;
use crate::error::{CompileError, Failure};
use crate::text::str_eq;

verus! {

/// The target of an action.
#[derive(Debug, Clone, PartialEq, Eq)]
pub enum Selector {
    /// The window with this identity, wherever it is.
    WindowId(String),
    /// The window at this place of the window stack, counted from 1. Whether
    /// the stack has such a place is found out when the script runs.
    StackIndex(i32),
    /// Every window of the window stack.
    StackAll,
}

/// A [`Selector`] with its text as a character sequence.
pub enum Target {
    WindowId(Seq<char>),
    StackIndex(int),
    StackAll,
}

impl View for Selector {
    type V = Target;

    open spec fn view(&self) -> Target {
        match self {
            Selector::WindowId(id) => Target::WindowId(id@),
            Selector::StackIndex(index) => Target::StackIndex(*index as int),
            Selector::StackAll => Target::StackAll,
        }
    }
}

/// The view of the outcome of reading a selector.
pub open spec fn selector_outcome(outcome: Result<Selector, CompileError>) -> Result<
    Target,
    Failure,
> {
    match outcome {
        Ok(selector) => Ok(selector@),
        Err(error) => Err(error@),
    }
}

/// The target of an action that names none: the top of the window stack.
pub open spec fn default_target() -> Target {
    Target::StackIndex(1)
}

/// Whether a character is one of the ten decimal digits.
pub open spec fn is_digit(c: char) -> bool {
    '0' <= c && c <= '9'
}

/// The number that a decimal digit stands for.
pub open spec fn digit_value(c: char) -> int {
    c as int - '0' as int
}

/// Whether a text holds decimal digits and nothing else.
pub open spec fn all_digits(text: Seq<char>) -> bool {
    forall|i: int| 0 <= i < text.len() ==> is_digit(#[trigger] text[i])
}

/// The number that a row of digits writes in decimal.
pub open spec fn decimal_value(digits: Seq<char>) -> int
    decreases digits.len(),
{
    if digits.len() == 0 {
        0
    } else {
        10 * decimal_value(digits.drop_last()) + digit_value(digits.last())
    }
}

/// The stack index that `text` writes: one sign at most, then digits and
/// nothing else, for a number that an `i32` holds.
pub open spec fn index_of_text(text: Seq<char>) -> Option<int> {
    let negative = text.len() > 0 && text[0] == '-';
    let signed = text.len() > 0 && (text[0] == '-' || text[0] == '+');
    let digits = if signed {
        text.skip(1)
    } else {
        text
    };
    let value = if negative {
        -decimal_value(digits)
    } else {
        decimal_value(digits)
    };
    if digits.len() > 0 && all_digits(digits) && i32::MIN <= value <= i32::MAX {
        Some(value)
    } else {
        None
    }
}

/// What a selector token means: `%@` is the whole stack, `%` and a number a
/// place of the stack, any other token starting with `%` a mistake, and
/// everything else a window's identity.
pub open spec fn selector_of(token: Seq<char>) -> Result<Target, Failure> {
    if token == "%@"@ {
        Ok(Target::StackAll)
    } else if token.len() > 0 && token[0] == '%' {
        match index_of_text(token.skip(1)) {
            Some(index) => Ok(Target::StackIndex(index)),
            None => Err(Failure::InvalidSelector(token)),
        }
    } else {
        Ok(Target::WindowId(token))
    }
}

proof fn lemma_decimal_step(digits: Seq<char>, k: int)
    requires
        0 <= k < digits.len(),
    ensures
        decimal_value(digits.take(k + 1)) == 10 * decimal_value(digits.take(k)) + digit_value(
            digits[k],
        ),
{
    assert(digits.take(k + 1).drop_last() =~= digits.take(k));
}

proof fn lemma_decimal_grows(digits: Seq<char>, k: int)
    requires
        all_digits(digits),
        0 <= k <= digits.len(),
    ensures
        0 <= decimal_value(digits.take(k)) <= decimal_value(digits),
    decreases digits.len() - k,
{
    lemma_decimal_nonnegative(digits.take(k));
    if k < digits.len() {
        lemma_decimal_step(digits, k);
        lemma_decimal_grows(digits, k + 1);
    } else {
        assert(digits.take(k) =~= digits);
    }
}

proof fn lemma_decimal_nonnegative(digits: Seq<char>)
    requires
        all_digits(digits),
    ensures
        0 <= decimal_value(digits),
    decreases digits.len(),
{
    if digits.len() > 0 {
        lemma_decimal_nonnegative(digits.drop_last());
    }
}

/// Reads a stack index: one sign at most, then decimal digits.
pub fn parse_index(text: &str) -> (index: Option<i32>)
    ensures
        match index {
            Some(n) => index_of_text(text@) == Some(n as int),
            None => index_of_text(text@) is None,
        },
{
    let n: usize = text.unicode_len();
    if n == 0 {
        return None;
    }
    let first: char = text.get_char(0);
    let negative: bool = first == '-';
    let start: usize = if first == '-' || first == '+' {
        1
    } else {
        0
    };
    if start == n {
        return None;
    }
    let ghost digits: Seq<char> = if start == 1 {
        text@.skip(1)
    } else {
        text@
    };
    let mut magnitude: i64 = 0;
    let mut i: usize = start;
    while i < n
        invariant
            n == text@.len(),
            n > 0,
            negative == (text@[0] == '-'),
            start == if text@[0] == '-' || text@[0] == '+' {
                1usize
            } else {
                0usize
            },
            start <= i <= n,
            digits == if start == 1 {
                text@.skip(1)
            } else {
                text@
            },
            all_digits(digits.take(i - start)),
            magnitude == decimal_value(digits.take(i - start)),
            0 <= magnitude <= 2147483648,
        decreases n - i,
    {
        let c: char = text.get_char(i);
        if !('0' <= c && c <= '9') {
            return None;
        }
        proof {
            lemma_decimal_step(digits, i - start);
            assert forall|k: int| 0 <= k < i + 1 - start implies is_digit(
                #[trigger] digits.take(i + 1 - start)[k],
            ) by {
                assert(k < i - start ==> digits.take(i - start)[k] == digits[k]);
            }
        }
        magnitude = magnitude * 10 + (c as u32 - '0' as u32) as i64;
        if magnitude > 2147483648 {
            proof {
                if all_digits(digits) {
                    lemma_decimal_grows(digits, i + 1 - start);
                }
            }
            return None;
        }
        i += 1;
    }
    assert(digits.take(n - start) =~= digits);
    if negative {
        Some((-magnitude) as i32)
    } else if magnitude > 2147483647 {
        None
    } else {
        Some(magnitude as i32)
    }
}

/// Reads a selector token.
pub fn parse_selector(token: &str) -> (outcome: Result<Selector, CompileError>)
    ensures
        selector_outcome(outcome) == selector_of(token@),
{
    if str_eq(token, "%@") {
        return Ok(Selector::StackAll);
    }
    let n: usize = token.unicode_len();
    if n > 0 && token.get_char(0) == '%' {
        match parse_index(token.substring_char(1, n)) {
            Some(index) => Ok(Selector::StackIndex(index)),
            None => Err(CompileError::InvalidSelector(String::from_str(token))),
        }
    } else {
        Ok(Selector::WindowId(String::from_str(token)))
    }
}

/// The selector of an action that names none.
pub fn default_selector() -> (selector: Selector)
    ensures
        selector@ == default_target(),
{
    Selector::StackIndex(1)
}

/// The forms of a selector: `%@` is the whole stack; `%` before digits is the
/// place that the digits write; a token that does not start with `%` is a
/// window's identity, kept as written.
///
/// The place is taken as written, whatever the number: zero, or one past any
/// stack there will ever be. Nothing but the width of an `i32` limits it here;
/// whether the stack has that place is decided when the script runs.
pub proof fn lemma_selector_forms(digits: Seq<char>, literal: Seq<char>)
    requires
        digits.len() > 0,
        all_digits(digits),
        decimal_value(digits) <= i32::MAX,
        literal.len() == 0 || literal[0] != '%',
    ensures
        selector_of("%@"@) == Ok::<Target, Failure>(Target::StackAll),
        selector_of(seq!['%'] + digits) == Ok::<Target, Failure>(
            Target::StackIndex(decimal_value(digits)),
        ),
        selector_of(literal) == Ok::<Target, Failure>(Target::WindowId(literal)),
{
    reveal_strlit("%@");
    let token = seq!['%'] + digits;
    assert(token.skip(1) =~= digits);
    lemma_decimal_nonnegative(digits);
}

} // verus!
