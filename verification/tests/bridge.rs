use rustlisp::environment::setup_environment;
use rustlisp::eval::eval;
use rustlisp::interop::{
    call_lisp_function, lisp_to_rust_bool, lisp_to_rust_number, lisp_to_rust_string,
    lisp_to_rust_vector, register_lisp_function, rust_to_lisp_bool, rust_to_lisp_list,
    rust_to_lisp_number, rust_to_lisp_symbol,
};
use rustlisp::interpreter::Interpreter;
use rustlisp::number::ArithOp;
use rustlisp::parser::{read, ReadError};
use rustlisp::printer::print_value;
use rustlisp::rust_functions::{
    call_registered, rust_add, rust_length, rust_multiply, rust_uppercase, setup_rust_functions,
    ArgumentError, RustFunctionRegistry,
};
use rustlisp::types::{cons, EnvRef, Value};
use std::rc::Rc;

type Native = fn(Vec<Rc<Value>>) -> Rc<Value>;
type Arith = fn(ArithOp, u64, u64) -> u64;

fn arith(op: ArithOp, a: u64, b: u64) -> u64 {
    let (x, y) = (f64::from_bits(a), f64::from_bits(b));
    let r = match op {
        ArithOp::Add => x + y,
        ArithOp::Sub => x - y,
        ArithOp::Mul => x * y,
        ArithOp::Div => x / y,
    };
    r.to_bits()
}

fn number(text: &str) -> Option<u64> {
    text.parse::<f64>().ok().map(f64::to_bits)
}

fn format(bits: u64) -> String {
    format!("{}", f64::from_bits(bits))
}

fn machine() -> (Interpreter<Arith, Native>, EnvRef) {
    let mut interp: Interpreter<Arith, Native> = Interpreter::new(arith as Arith, 64);
    let env = setup_environment(&mut interp);
    setup_rust_functions(env, &mut interp);
    (interp, env)
}

fn run(interp: &mut Interpreter<Arith, Native>, env: EnvRef, source: &str) -> String {
    let expr = read(source, &number).expect("the source reads");
    let value = eval(expr, env, interp);
    print_value(&value, &format)
}

fn num(x: f64) -> Rc<Value> {
    rust_to_lisp_number(x.to_bits())
}

fn show(value: &Rc<Value>) -> String {
    print_value(value, &format)
}

fn first(args: Vec<Rc<Value>>) -> Rc<Value> {
    args.into_iter().next().unwrap_or_else(|| Rc::new(Value::Nil))
}

fn last(args: Vec<Rc<Value>>) -> Rc<Value> {
    args.into_iter().last().unwrap_or_else(|| Rc::new(Value::Nil))
}

#[test]
fn host_values_become_values_of_the_language() {
    assert_eq!(show(&rust_to_lisp_number(2.5f64.to_bits())), "2.5");
    assert_eq!(show(&rust_to_lisp_symbol("abc")), "abc");
    assert_eq!(show(&rust_to_lisp_bool(true)), "#t");
    assert_eq!(show(&rust_to_lisp_bool(false)), "#f");
}

#[test]
fn number_conversion_is_lossless() {
    for x in [0.0, -0.0, 1.0, 0.1, f64::MAX, f64::MIN_POSITIVE, f64::INFINITY] {
        let back = lisp_to_rust_number(&rust_to_lisp_number(x.to_bits())).unwrap();
        assert_eq!(back, x.to_bits());
    }
    let nan = f64::NAN.to_bits();
    assert_eq!(lisp_to_rust_number(&rust_to_lisp_number(nan)), Some(nan));
}

#[test]
fn values_of_the_language_become_host_values() {
    assert_eq!(lisp_to_rust_number(&num(4.0)), Some(4.0f64.to_bits()));
    assert_eq!(lisp_to_rust_number(&rust_to_lisp_symbol("4")), None);
    assert_eq!(lisp_to_rust_number(&Rc::new(Value::Nil)), None);
    assert_eq!(lisp_to_rust_string(&rust_to_lisp_symbol("abc")), Some("abc".to_string()));
    assert_eq!(lisp_to_rust_string(&num(1.0)), None);
    assert_eq!(lisp_to_rust_bool(&rust_to_lisp_bool(true)), Some(true));
    assert_eq!(lisp_to_rust_bool(&rust_to_lisp_bool(false)), Some(false));
    assert_eq!(lisp_to_rust_bool(&Rc::new(Value::Nil)), Some(false));
    assert_eq!(lisp_to_rust_bool(&num(1.0)), None);
    assert_eq!(lisp_to_rust_bool(&rust_to_lisp_symbol("#t")), None);
}

#[test]
fn a_sequence_becomes_a_list_in_order() {
    assert_eq!(show(&rust_to_lisp_list(vec![])), "()");
    assert_eq!(show(&rust_to_lisp_list(vec![num(1.0)])), "(1)");
    let list = rust_to_lisp_list(vec![num(1.0), rust_to_lisp_symbol("a"), num(3.0)]);
    assert_eq!(show(&list), "(1 a 3)");
}

#[test]
fn a_list_becomes_a_sequence_in_order() {
    let list = read("(1 a (b c) 4)", &number).unwrap();
    let items = lisp_to_rust_vector(&list);
    let shown: Vec<String> = items.iter().map(show).collect();
    assert_eq!(shown, vec!["1", "a", "(b c)", "4"]);
    assert!(lisp_to_rust_vector(&Rc::new(Value::Nil)).is_empty());
    assert!(lisp_to_rust_vector(&num(1.0)).is_empty());
}

#[test]
fn an_improper_tail_is_dropped_silently() {
    let list = cons(num(1.0), cons(num(2.0), num(3.0)));
    let items = lisp_to_rust_vector(&list);
    let shown: Vec<String> = items.iter().map(show).collect();
    assert_eq!(shown, vec!["1", "2"]);
}

#[test]
fn list_and_sequence_conversions_round_trip() {
    let items = vec![num(1.0), rust_to_lisp_symbol("x"), rust_to_lisp_bool(true)];
    let back = lisp_to_rust_vector(&rust_to_lisp_list(items));
    let shown: Vec<String> = back.iter().map(show).collect();
    assert_eq!(shown, vec!["1", "x", "#t"]);
}

#[test]
fn host_calls_a_builtin_by_name() {
    let (mut interp, env) = machine();
    let sum = call_lisp_function("+", vec![num(1.0), num(2.0), num(3.0)], env, &mut interp);
    assert_eq!(show(&sum), "6");
    let none = call_lisp_function("+", vec![], env, &mut interp);
    assert_eq!(show(&none), "0");
    assert!(interp.diagnostics().is_empty());
}

#[test]
fn host_calls_a_closure_by_name() {
    let (mut interp, env) = machine();
    let define = read("(define inc (lambda (n) (+ n 1)))", &number).unwrap();
    eval(define, env, &mut interp);
    let value = call_lisp_function("inc", vec![num(41.0)], env, &mut interp);
    assert_eq!(show(&value), "42");
}

#[test]
fn host_call_arguments_are_operands_of_an_application() {
    let (mut interp, env) = machine();
    eval(read("(define inc (lambda (n) (+ n 1)))", &number).unwrap(), env, &mut interp);
    eval(read("(define k 9)", &number).unwrap(), env, &mut interp);
    let value = call_lisp_function("inc", vec![rust_to_lisp_symbol("k")], env, &mut interp);
    assert_eq!(show(&value), "10");
    let quoted = call_lisp_function("quote", vec![rust_to_lisp_symbol("k")], env, &mut interp);
    assert_eq!(show(&quoted), "k");
}

#[test]
fn host_call_of_a_missing_name_is_nil_with_a_diagnostic() {
    let (mut interp, env) = machine();
    let value = call_lisp_function("missing", vec![num(1.0)], env, &mut interp);
    assert_eq!(show(&value), "()");
    assert_eq!(interp.diagnostics().len(), 1);
    assert_eq!(interp.diagnostics()[0], "Function 'missing' not found in environment");
}

#[test]
fn host_call_of_what_is_not_callable_is_nil() {
    let (mut interp, env) = machine();
    eval(read("(define five 5)", &number).unwrap(), env, &mut interp);
    let value = call_lisp_function("five", vec![num(1.0)], env, &mut interp);
    assert_eq!(show(&value), "()");
    assert!(interp.diagnostics().is_empty());
}

#[test]
fn closure_is_defined_from_source() {
    let (mut interp, env) = machine();
    let done = register_lisp_function("add3", "(a b c)", "(+ a b c)", env, &mut interp, &number);
    assert_eq!(done, Ok(()));
    assert_eq!(show(&interp.lookup(env, "add3")), "<lambda>");
    let value = eval(read("(add3 1 2 3)", &number).unwrap(), env, &mut interp);
    assert_eq!(show(&value), "6");
    let value = call_lisp_function("add3", vec![num(4.0), num(5.0), num(6.0)], env, &mut interp);
    assert_eq!(show(&value), "15");
}

#[test]
fn closure_from_source_captures_the_given_environment() {
    let (mut interp, env) = machine();
    register_lisp_function("get", "()", "x", env, &mut interp, &number).unwrap();
    eval(read("(define x 3)", &number).unwrap(), env, &mut interp);
    assert_eq!(show(&eval(read("(get)", &number).unwrap(), env, &mut interp)), "3");
    match &*interp.lookup(env, "get") {
        Value::Lambda(params, body, captured) => {
            assert_eq!(show(params), "()");
            assert_eq!(show(body), "x");
            assert_eq!(*captured, env);
        }
        other => panic!("not a closure: {:?}", other),
    }
}

#[test]
fn defining_from_source_that_does_not_read_fails_and_binds_nothing() {
    let (mut interp, env) = machine();
    let failed = register_lisp_function("f", "(a", "a", env, &mut interp, &number);
    assert_eq!(failed, Err(ReadError::UnterminatedList));
    let failed = register_lisp_function("f", "(a)", "", env, &mut interp, &number);
    assert_eq!(failed, Err(ReadError::UnexpectedEnd));
    let failed = register_lisp_function("f", ")", "(", env, &mut interp, &number);
    assert_eq!(failed, Err(ReadError::ExpectedAtom));
    assert!(!interp.is_bound(env, "f"));
}

#[test]
fn registry_gives_back_what_was_registered() {
    let mut registry: RustFunctionRegistry<Native> = RustFunctionRegistry::new();
    assert!(registry.get("first").is_none());
    registry.register("first", first as Native);
    registry.register("last", last as Native);
    let f = registry.get("first").expect("registered");
    assert_eq!(show(&f(vec![num(1.0), num(2.0)])), "1");
    let l = registry.get("last").expect("registered");
    assert_eq!(show(&l(vec![num(1.0), num(2.0)])), "2");
    assert!(registry.get("middle").is_none());
    registry.register("first", last as Native);
    let f = registry.get("first").expect("registered");
    assert_eq!(show(&f(vec![num(1.0), num(2.0)])), "2");
}

#[test]
fn registered_callable_is_called_on_the_elements_of_a_list() {
    let (mut interp, _) = machine();
    interp.register("last", last as Native);
    let args = read("(1 2 3)", &number).unwrap();
    assert_eq!(show(&call_registered("last", &args, &mut interp)), "3");
    assert_eq!(show(&call_registered("lost", &args, &mut interp)), "()");
    assert_eq!(interp.diagnostics()[0], "Rust function 'lost' not found");
}

#[test]
fn setup_binds_the_bridge_form() {
    let mut interp: Interpreter<Arith, Native> = Interpreter::new(arith as Arith, 8);
    let env = setup_environment(&mut interp);
    assert!(!interp.is_bound(env, "rust-call"));
    setup_rust_functions(env, &mut interp);
    assert!(interp.is_bound(env, "rust-call"));
    setup_rust_functions(EnvRef { index: 7 }, &mut interp);
    assert_eq!(interp.environments(), 1);
}

#[test]
fn rust_add_adds_numbers() {
    let sum = rust_add(vec![num(1.0), num(2.0), num(3.5)], &arith).unwrap();
    assert_eq!(show(&sum), "6.5");
    let sum = rust_add(vec![num(0.1), num(0.2)], &arith).unwrap();
    assert_eq!(show(&sum), "0.30000000000000004");
}

#[test]
fn rust_add_asks_for_two_numbers() {
    assert_eq!(rust_add(vec![], &arith).unwrap_err(), ArgumentError::TooFew);
    assert_eq!(rust_add(vec![num(1.0)], &arith).unwrap_err(), ArgumentError::TooFew);
    assert_eq!(
        rust_add(vec![rust_to_lisp_symbol("a")], &arith).unwrap_err(),
        ArgumentError::TooFew
    );
    assert_eq!(
        rust_add(vec![num(1.0), rust_to_lisp_symbol("a")], &arith).unwrap_err(),
        ArgumentError::NotNumeric
    );
    assert_eq!(
        rust_add(vec![Rc::new(Value::Nil), num(1.0), num(2.0)], &arith).unwrap_err(),
        ArgumentError::NotNumeric
    );
}

#[test]
fn rust_multiply_multiplies_numbers() {
    let product = rust_multiply(vec![num(2.0), num(3.0), num(4.0)], &arith).unwrap();
    assert_eq!(show(&product), "24");
    let product = rust_multiply(vec![num(-0.5), num(4.0)], &arith).unwrap();
    assert_eq!(show(&product), "-2");
}

#[test]
fn rust_multiply_asks_for_two_numbers() {
    assert_eq!(rust_multiply(vec![num(2.0)], &arith).unwrap_err(), ArgumentError::TooFew);
    assert_eq!(
        rust_multiply(vec![num(2.0), rust_to_lisp_bool(true)], &arith).unwrap_err(),
        ArgumentError::NotNumeric
    );
}

#[test]
fn rust_length_counts_the_elements() {
    let list = read("(a b c d e)", &number).unwrap();
    assert_eq!(show(&rust_length(vec![list], &arith).unwrap()), "5");
    assert_eq!(show(&rust_length(vec![Rc::new(Value::Nil)], &arith).unwrap()), "0");
    assert_eq!(show(&rust_length(vec![num(7.0)], &arith).unwrap()), "0");
    let improper = cons(num(1.0), cons(num(2.0), num(3.0)));
    assert_eq!(show(&rust_length(vec![improper], &arith).unwrap()), "2");
    let long = rust_to_lisp_list((0..1000).map(|i| num(i as f64)).collect());
    assert_eq!(show(&rust_length(vec![long], &arith).unwrap()), "1000");
}

#[test]
fn rust_length_asks_for_one_argument() {
    assert_eq!(rust_length(vec![], &arith).unwrap_err(), ArgumentError::NotOne);
    assert_eq!(
        rust_length(vec![Rc::new(Value::Nil), Rc::new(Value::Nil)], &arith).unwrap_err(),
        ArgumentError::NotOne
    );
}

#[test]
fn rust_uppercase_raises_a_symbol() {
    let upper = rust_uppercase(vec![rust_to_lisp_symbol("hello")]).unwrap();
    assert_eq!(show(&upper), "HELLO");
    let upper = rust_uppercase(vec![rust_to_lisp_symbol("straße-1")]).unwrap();
    assert_eq!(show(&upper), "STRASSE-1");
}

#[test]
fn rust_uppercase_asks_for_one_symbol() {
    assert_eq!(rust_uppercase(vec![]).unwrap_err(), ArgumentError::NotOne);
    assert_eq!(
        rust_uppercase(vec![rust_to_lisp_symbol("a"), rust_to_lisp_symbol("b")]).unwrap_err(),
        ArgumentError::NotOne
    );
    assert_eq!(rust_uppercase(vec![num(1.0)]).unwrap_err(), ArgumentError::NotSymbol);
}

#[test]
fn argument_failures_describe_themselves() {
    assert_eq!(
        ArgumentError::TooFew.message("rust-add"),
        "rust-add requires at least two arguments"
    );
    assert_eq!(
        ArgumentError::NotNumeric.message("rust-multiply"),
        "rust-multiply requires numeric arguments"
    );
    assert_eq!(
        ArgumentError::NotOne.message("rust-length"),
        "rust-length requires exactly one argument"
    );
    assert_eq!(
        ArgumentError::NotSymbol.message("rust-uppercase"),
        "rust-uppercase requires a symbol argument"
    );
}
