use kdotool::error::CompileError;
use kdotool::selector::{default_selector, parse_index, parse_selector, Selector};

fn invalid(token: &str) -> Result<Selector, CompileError> {
    Err(CompileError::InvalidSelector(token.to_string()))
}

#[test]
fn percent_at_is_the_whole_stack() {
    assert_eq!(parse_selector("%@"), Ok(Selector::StackAll));
}

#[test]
fn percent_and_digits_is_a_place_of_the_stack() {
    assert_eq!(parse_selector("%1"), Ok(Selector::StackIndex(1)));
    assert_eq!(parse_selector("%2"), Ok(Selector::StackIndex(2)));
    assert_eq!(parse_selector("%12"), Ok(Selector::StackIndex(12)));
    assert_eq!(parse_selector("%007"), Ok(Selector::StackIndex(7)));
}

#[test]
fn no_operand_is_the_top_of_the_stack() {
    assert_eq!(default_selector(), Selector::StackIndex(1));
}

#[test]
fn any_other_literal_is_a_window_identity() {
    assert_eq!(
        parse_selector("{8d6a1e5f-0b1c-4a55-9c0e-1b2f3a4d5e6f}"),
        Ok(Selector::WindowId("{8d6a1e5f-0b1c-4a55-9c0e-1b2f3a4d5e6f}".to_string()))
    );
    assert_eq!(parse_selector("12"), Ok(Selector::WindowId("12".to_string())));
    assert_eq!(parse_selector("a%1"), Ok(Selector::WindowId("a%1".to_string())));
    assert_eq!(parse_selector("@"), Ok(Selector::WindowId("@".to_string())));
    assert_eq!(parse_selector(""), Ok(Selector::WindowId(String::new())));
    assert_eq!(parse_selector("search"), Ok(Selector::WindowId("search".to_string())));
}

#[test]
fn stack_index_is_not_held_against_any_bound() {
    assert_eq!(parse_selector("%0"), Ok(Selector::StackIndex(0)));
    assert_eq!(parse_selector("%999999"), Ok(Selector::StackIndex(999999)));
    assert_eq!(parse_selector("%2147483647"), Ok(Selector::StackIndex(i32::MAX)));
    assert_eq!(parse_selector("%-1"), Ok(Selector::StackIndex(-1)));
    assert_eq!(parse_selector("%-2147483648"), Ok(Selector::StackIndex(i32::MIN)));
    assert_eq!(parse_selector("%+3"), Ok(Selector::StackIndex(3)));
}

#[test]
fn number_too_wide_is_no_selector() {
    assert_eq!(parse_selector("%2147483648"), invalid("%2147483648"));
    assert_eq!(parse_selector("%-2147483649"), invalid("%-2147483649"));
    assert_eq!(parse_selector("%99999999999999999999999999"), invalid("%99999999999999999999999999"));
}

#[test]
fn percent_before_anything_else_is_no_selector() {
    assert_eq!(parse_selector("%"), invalid("%"));
    assert_eq!(parse_selector("%abc"), invalid("%abc"));
    assert_eq!(parse_selector("%1x"), invalid("%1x"));
    assert_eq!(parse_selector("%x1"), invalid("%x1"));
    assert_eq!(parse_selector("%@@"), invalid("%@@"));
    assert_eq!(parse_selector("%-"), invalid("%-"));
    assert_eq!(parse_selector("%+"), invalid("%+"));
    assert_eq!(parse_selector("%--1"), invalid("%--1"));
    assert_eq!(parse_selector("%1 "), invalid("%1 "));
    assert_eq!(parse_selector("% 1"), invalid("% 1"));
    assert_eq!(parse_selector("%1_000"), invalid("%1_000"));
    assert_eq!(parse_selector("%١"), invalid("%١"));
}

#[test]
fn index_reads_as_std_does() {
    for text in ["0", "1", "-1", "+1", "42", "0042", "2147483647", "2147483648", "-2147483648",
        "-2147483649", "", "-", "+", "1a", "a1", " 1", "1 ", "+-1", "9999999999", "-0", "+0"]
    {
        assert_eq!(parse_index(text), text.parse::<i32>().ok());
    }
}

#[test]
fn index_exact_values() {
    assert_eq!(parse_index("42"), Some(42));
    assert_eq!(parse_index("-17"), Some(-17));
    assert_eq!(parse_index("4x"), None);
}
