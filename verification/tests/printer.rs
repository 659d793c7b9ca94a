use rustlisp::printer::{format_number, print_value};
use rustlisp::types::{cons, EnvRef, Primitive, Value};
use std::rc::Rc;

fn format(bits: u64) -> String {
    format!("{}", f64::from_bits(bits))
}

fn num(x: f64) -> Rc<Value> {
    Rc::new(Value::Number(x.to_bits()))
}

fn sym(name: &str) -> Rc<Value> {
    Rc::new(Value::Symbol(name.to_string()))
}

fn nil() -> Rc<Value> {
    Rc::new(Value::Nil)
}

#[test]
fn prints_nil_as_empty_list() {
    assert_eq!(print_value(&nil(), &format), "()");
}

#[test]
fn prints_booleans() {
    assert_eq!(print_value(&Rc::new(Value::Bool(true)), &format), "#t");
    assert_eq!(print_value(&Rc::new(Value::Bool(false)), &format), "#f");
}

#[test]
fn prints_numbers_as_the_host_formats_them() {
    assert_eq!(print_value(&num(6.0), &format), "6");
    assert_eq!(print_value(&num(2.5), &format), "2.5");
    assert_eq!(print_value(&num(-0.125), &format), "-0.125");
    assert_eq!(print_value(&num(1e21), &format), "1000000000000000000000");
    let hex = |bits: u64| format!("{:#x}", bits);
    assert_eq!(print_value(&num(1.0), &hex), "0x3ff0000000000000");
    assert_eq!(print_value(&cons(num(0.0), nil()), &hex), "(0x0)");
}

#[test]
fn prints_symbols_verbatim() {
    assert_eq!(print_value(&sym("hello"), &format), "hello");
    assert_eq!(print_value(&sym(""), &format), "");
    assert_eq!(print_value(&sym("with space"), &format), "with space");
}

#[test]
fn prints_procedures_with_their_name() {
    let p = Rc::new(Value::Procedure("car".to_string(), Primitive::Quote));
    assert_eq!(print_value(&p, &format), "<procedure:car>");
}

#[test]
fn prints_closures_as_a_fixed_tag() {
    let c = Rc::new(Value::Lambda(sym("x"), sym("x"), EnvRef { index: 0 }));
    assert_eq!(print_value(&c, &format), "<lambda>");
}

#[test]
fn prints_lists_with_single_spaces() {
    assert_eq!(print_value(&cons(num(1.0), nil()), &format), "(1)");
    let list = cons(num(1.0), cons(sym("a"), cons(Rc::new(Value::Bool(true)), nil())));
    assert_eq!(print_value(&list, &format), "(1 a #t)");
}

#[test]
fn prints_nested_lists() {
    let inner = cons(sym("b"), cons(sym("c"), nil()));
    let list = cons(sym("a"), cons(inner, cons(nil(), nil())));
    assert_eq!(print_value(&list, &format), "(a (b c) ())");
}

#[test]
fn prints_an_improper_tail_after_a_dot() {
    assert_eq!(print_value(&cons(num(1.0), num(2.0)), &format), "(1 . 2)");
    let list = cons(sym("a"), cons(sym("b"), sym("c")));
    assert_eq!(print_value(&list, &format), "(a b . c)");
    let list = cons(sym("a"), Rc::new(Value::Bool(false)));
    assert_eq!(print_value(&list, &format), "(a . #f)");
    let list = cons(cons(sym("a"), sym("b")), sym("c"));
    assert_eq!(print_value(&list, &format), "((a . b) . c)");
}

#[test]
fn format_number_asks_the_host() {
    assert_eq!(format_number(&format, 2.5f64.to_bits()), "2.5");
    let decimal = |bits: u64| bits.to_string();
    assert_eq!(format_number(&decimal, 42), "42");
}
