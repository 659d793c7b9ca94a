use rustlisp::parser::{parse_number, read, ReadError};
use rustlisp::printer::print_value;
use rustlisp::types::Value;

fn number(text: &str) -> Option<u64> {
    text.parse::<f64>().ok().map(f64::to_bits)
}

fn format(bits: u64) -> String {
    format!("{}", f64::from_bits(bits))
}

fn show(source: &str) -> String {
    print_value(&read(source, &number).expect("the source reads"), &format)
}

#[test]
fn reads_a_number() {
    match &*read("42", &number).unwrap() {
        Value::Number(bits) => assert_eq!(f64::from_bits(*bits), 42.0),
        other => panic!("not a number: {:?}", other),
    }
    match &*read("-1.5e2", &number).unwrap() {
        Value::Number(bits) => assert_eq!(f64::from_bits(*bits), -150.0),
        other => panic!("not a number: {:?}", other),
    }
}

#[test]
fn reads_a_symbol() {
    match &*read("hello-world", &number).unwrap() {
        Value::Symbol(name) => assert_eq!(name, "hello-world"),
        other => panic!("not a symbol: {:?}", other),
    }
    match &*read("+", &number).unwrap() {
        Value::Symbol(name) => assert_eq!(name, "+"),
        other => panic!("not a symbol: {:?}", other),
    }
    match &*read("1+", &number).unwrap() {
        Value::Symbol(name) => assert_eq!(name, "1+"),
        other => panic!("not a symbol: {:?}", other),
    }
}

#[test]
fn the_host_decides_what_a_number_is() {
    let never = |_: &str| -> Option<u64> { None };
    match &*read("42", &never).unwrap() {
        Value::Symbol(name) => assert_eq!(name, "42"),
        other => panic!("not a symbol: {:?}", other),
    }
    let always = |text: &str| -> Option<u64> { Some(text.len() as u64) };
    match &*read("abc", &always).unwrap() {
        Value::Number(bits) => assert_eq!(*bits, 3),
        other => panic!("not a number: {:?}", other),
    }
}

#[test]
fn reads_lists() {
    assert_eq!(show("()"), "()");
    assert_eq!(show("(a)"), "(a)");
    assert_eq!(show("(a b c)"), "(a b c)");
    assert_eq!(show("(a (b (c)) d)"), "(a (b (c)) d)");
    assert_eq!(show("(() ())"), "(() ())");
}

#[test]
fn skips_white_space() {
    assert_eq!(show("   a"), "a");
    assert_eq!(show("\n\t( a\n  b\r\n)"), "(a b)");
    assert_eq!(show("(\u{a0}a\u{2003}b\u{3000})"), "(a b)");
    assert_eq!(show("( )"), "()");
}

#[test]
fn quote_mark_abbreviates_quote() {
    assert_eq!(show("'a"), "(quote a)");
    assert_eq!(show("'(a b)"), "(quote (a b))");
    assert_eq!(show("''a"), "(quote (quote a))");
    assert_eq!(show("(a 'b)"), "(a (quote b))");
    assert_eq!(show("' a"), "(quote a)");
}

#[test]
fn quote_mark_inside_an_atom_belongs_to_it() {
    assert_eq!(show("a'b"), "a'b");
    assert_eq!(show("(don't)"), "(don't)");
}

#[test]
fn parentheses_end_an_atom() {
    assert_eq!(show("(a(b)c)"), "(a (b) c)");
    assert_eq!(show("(ab)cd"), "(ab)");
}

#[test]
fn trailing_characters_are_ignored() {
    assert_eq!(show("a b c"), "a");
    assert_eq!(show("(a) (b"), "(a)");
    assert_eq!(show("1 )"), "1");
    assert_eq!(show("() ((("), "()");
}

#[test]
fn text_that_ends_early_fails() {
    assert_eq!(read("(1 2", &number).unwrap_err(), ReadError::UnterminatedList);
    assert_eq!(read("", &number).unwrap_err(), ReadError::UnexpectedEnd);
    assert_eq!(read("   \n", &number).unwrap_err(), ReadError::UnexpectedEnd);
    assert_eq!(read("(", &number).unwrap_err(), ReadError::UnterminatedList);
    assert_eq!(read("(a (b)", &number).unwrap_err(), ReadError::UnterminatedList);
    assert_eq!(read("'", &number).unwrap_err(), ReadError::UnexpectedEnd);
    assert_eq!(read("(a '", &number).unwrap_err(), ReadError::UnexpectedEnd);
}

#[test]
fn closing_parenthesis_is_no_expression() {
    assert_eq!(read(")", &number).unwrap_err(), ReadError::ExpectedAtom);
    assert_eq!(read("  )", &number).unwrap_err(), ReadError::ExpectedAtom);
    assert_eq!(read("')", &number).unwrap_err(), ReadError::ExpectedAtom);
    assert_eq!(read("(a ')", &number).unwrap_err(), ReadError::ExpectedAtom);
}

#[test]
fn failures_describe_themselves() {
    assert_eq!(ReadError::UnexpectedEnd.message(), "Unexpected end of input");
    assert_eq!(ReadError::UnterminatedList.message(), "Expected ')' but got end of input");
    assert_eq!(ReadError::ExpectedAtom.message(), "Expected atom but got nothing");
}

#[test]
fn reads_text_beyond_ascii() {
    assert_eq!(show("(λ 🦀)"), "(λ 🦀)");
    match &*read("größe", &number).unwrap() {
        Value::Symbol(name) => assert_eq!(name, "größe"),
        other => panic!("not a symbol: {:?}", other),
    }
}

#[test]
fn printed_values_read_back() {
    for source in ["()", "a", "1.5", "-2", "(a)", "(a b c)", "(a (b (c)) () 1.5 -2)", "(quote x)"] {
        let value = read(source, &number).unwrap();
        let printed = print_value(&value, &format);
        assert_eq!(printed, source);
        let again = read(&printed, &number).unwrap();
        assert_eq!(print_value(&again, &format), printed);
    }
}

#[test]
fn numbers_read_back_as_the_same_pattern() {
    for x in [0.1f64, 1.0 / 3.0, 1e300, -2.5e-7, 123456789.125, f64::MAX, f64::MIN_POSITIVE] {
        let printed = format(x.to_bits());
        match &*read(&printed, &number).unwrap() {
            Value::Number(bits) => assert_eq!(*bits, x.to_bits(), "{}", printed),
            other => panic!("not a number: {:?}", other),
        }
    }
}

#[test]
fn the_space_separates_and_parentheses_do_not_count_as_white_space() {
    assert_eq!(show("(a b)"), "(a b)");
    assert_eq!(read(" ", &number).unwrap_err(), ReadError::UnexpectedEnd);
    assert_eq!(read(" (", &number).unwrap_err(), ReadError::UnterminatedList);
    assert_eq!(read(" )", &number).unwrap_err(), ReadError::ExpectedAtom);
}

#[test]
fn parse_number_asks_the_host() {
    assert_eq!(parse_number(&number, "2.5"), Some(2.5f64.to_bits()));
    assert_eq!(parse_number(&number, "two"), None);
    assert_eq!(parse_number(&number, ""), None);
    let length = |text: &str| -> Option<u64> { Some(text.chars().count() as u64) };
    assert_eq!(parse_number(&length, "größe"), Some(5));
}
