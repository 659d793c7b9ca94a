use rustlisp::environment::{install, Environment};
use rustlisp::eval::{bind_params, enter_closure};
use rustlisp::interpreter::Interpreter;
use rustlisp::number::ArithOp;
use rustlisp::printer::print_value;
use rustlisp::table::Table;
use rustlisp::types::{car, cdr, cons, EnvRef, Primitive, Value};
use std::rc::Rc;

type Native = fn(Vec<Rc<Value>>) -> Rc<Value>;
type Arith = fn(ArithOp, u64, u64) -> u64;

fn arith(_: ArithOp, a: u64, _: u64) -> u64 {
    a
}

fn format(bits: u64) -> String {
    format!("{}", f64::from_bits(bits))
}

fn num(x: f64) -> Rc<Value> {
    Rc::new(Value::Number(x.to_bits()))
}

fn sym(name: &str) -> Rc<Value> {
    Rc::new(Value::Symbol(name.to_string()))
}

fn nil() -> Rc<Value> {
    Rc::new(Value::Nil)
}

fn list(items: Vec<Rc<Value>>) -> Rc<Value> {
    items.into_iter().rev().fold(nil(), |tail, head| cons(head, tail))
}

fn shown(env: &Environment, name: &str) -> Option<String> {
    env.get(name).map(|v| print_value(&v, &format))
}

fn outer() -> Environment {
    let mut env = Environment::new();
    env.insert("x".to_string(), num(10.0));
    env.insert("y".to_string(), num(20.0));
    env
}

#[test]
fn head_and_tail_of_a_pair() {
    let pair = cons(num(1.0), num(2.0));
    assert_eq!(print_value(&car(&pair), &format), "1");
    assert_eq!(print_value(&cdr(&pair), &format), "2");
}

#[test]
fn head_and_tail_of_anything_else_are_nil() {
    for v in [nil(), num(1.0), sym("a"), Rc::new(Value::Bool(true))] {
        assert!(matches!(&*car(&v), Value::Nil));
        assert!(matches!(&*cdr(&v), Value::Nil));
    }
}

#[test]
fn table_keeps_bindings_in_the_order_of_first_binding() {
    let mut table: Table<u32> = Table::new();
    assert_eq!(table.len(), 0);
    assert_eq!(table.find("a"), None);
    table.insert("a".to_string(), 1);
    table.insert("b".to_string(), 2);
    table.insert("a".to_string(), 3);
    assert_eq!(table.len(), 2);
    assert_eq!(table.find("a"), Some(&3));
    assert_eq!(table.find("b"), Some(&2));
    assert_eq!(table.find("c"), None);
    assert_eq!(table.name_at(0), "a");
    assert_eq!(*table.value_at(0), 3);
    assert_eq!(table.name_at(1), "b");
    assert_eq!(*table.value_at(1), 2);
}

#[test]
fn table_tells_names_apart_by_every_character() {
    let mut table: Table<u32> = Table::new();
    table.insert("ab".to_string(), 1);
    table.insert("a".to_string(), 2);
    table.insert("".to_string(), 3);
    table.insert("aB".to_string(), 4);
    assert_eq!(table.find("ab"), Some(&1));
    assert_eq!(table.find("a"), Some(&2));
    assert_eq!(table.find(""), Some(&3));
    assert_eq!(table.find("aB"), Some(&4));
    assert_eq!(table.find("b"), None);
    assert_eq!(table.len(), 4);
}

#[test]
fn new_environment_binds_nothing() {
    let env = Environment::new();
    assert!(env.get("x").is_none());
    assert!(env.get("").is_none());
}

#[test]
fn insert_binds_and_rebinds() {
    let mut env = Environment::new();
    env.insert("x".to_string(), num(1.0));
    env.insert("y".to_string(), num(2.0));
    assert_eq!(shown(&env, "x").as_deref(), Some("1"));
    assert_eq!(shown(&env, "y").as_deref(), Some("2"));
    env.insert("x".to_string(), num(3.0));
    assert_eq!(shown(&env, "x").as_deref(), Some("3"));
    assert_eq!(shown(&env, "y").as_deref(), Some("2"));
    assert!(env.get("z").is_none());
    assert!(env.get("X").is_none());
}

#[test]
fn install_binds_a_form_under_its_name() {
    let mut env = Environment::new();
    install(&mut env, "first", Primitive::Quote);
    assert_eq!(shown(&env, "first").as_deref(), Some("<procedure:first>"));
    match &*env.get("first").unwrap() {
        Value::Procedure(name, form) => {
            assert_eq!(name, "first");
            assert_eq!(*form, Primitive::Quote);
        }
        other => panic!("not a procedure: {:?}", other),
    }
}

#[test]
fn copy_from_prefers_the_copied_bindings() {
    let mut env = Environment::new();
    env.insert("x".to_string(), num(1.0));
    env.insert("z".to_string(), num(3.0));
    env.copy_from(&outer());
    assert_eq!(shown(&env, "x").as_deref(), Some("10"));
    assert_eq!(shown(&env, "y").as_deref(), Some("20"));
    assert_eq!(shown(&env, "z").as_deref(), Some("3"));
}

#[test]
fn copy_from_except_leaves_one_name_alone() {
    let mut env = Environment::new();
    env.insert("x".to_string(), num(1.0));
    env.copy_from_except(&outer(), "x");
    assert_eq!(shown(&env, "x").as_deref(), Some("1"));
    assert_eq!(shown(&env, "y").as_deref(), Some("20"));
    let mut env = Environment::new();
    env.copy_from_except(&outer(), "y");
    assert_eq!(shown(&env, "x").as_deref(), Some("10"));
    assert!(env.get("y").is_none());
}

#[test]
fn copying_leaves_the_source_as_it_was() {
    let source = outer();
    let mut env = Environment::new();
    env.copy_from(&source);
    env.insert("x".to_string(), num(0.0));
    assert_eq!(shown(&source, "x").as_deref(), Some("10"));
}

#[test]
fn exhausted_parameters_and_arguments_copy_the_captured_bindings() {
    let mut env = Environment::new();
    env.insert("x".to_string(), num(1.0));
    bind_params(nil(), nil(), &mut env, &outer());
    assert_eq!(shown(&env, "x").as_deref(), Some("10"));
    assert_eq!(shown(&env, "y").as_deref(), Some("20"));
}

#[test]
fn symbol_parameter_takes_the_whole_argument_list() {
    let mut env = Environment::new();
    bind_params(sym("rest"), list(vec![num(1.0), num(2.0)]), &mut env, &outer());
    assert_eq!(shown(&env, "rest").as_deref(), Some("(1 2)"));
    assert_eq!(shown(&env, "x").as_deref(), Some("10"));
    assert_eq!(shown(&env, "y").as_deref(), Some("20"));
}

#[test]
fn symbol_parameter_is_not_replaced_by_its_captured_namesake() {
    let mut env = Environment::new();
    bind_params(sym("x"), num(1.0), &mut env, &outer());
    assert_eq!(shown(&env, "x").as_deref(), Some("1"));
    assert_eq!(shown(&env, "y").as_deref(), Some("20"));
}

#[test]
fn pairs_bind_head_against_head_and_tail_against_tail() {
    let mut env = Environment::new();
    let params = list(vec![sym("a"), sym("b")]);
    let args = list(vec![num(1.0), num(2.0)]);
    bind_params(params, args, &mut env, &Environment::new());
    assert_eq!(shown(&env, "a").as_deref(), Some("1"));
    assert_eq!(shown(&env, "b").as_deref(), Some("2"));
}

#[test]
fn a_complete_match_ends_by_copying_every_captured_binding() {
    let mut env = Environment::new();
    let params = list(vec![sym("x"), sym("b")]);
    let args = list(vec![num(1.0), num(2.0)]);
    bind_params(params, args, &mut env, &outer());
    assert_eq!(shown(&env, "x").as_deref(), Some("10"));
    assert_eq!(shown(&env, "b").as_deref(), Some("2"));
    assert_eq!(shown(&env, "y").as_deref(), Some("20"));
}

#[test]
fn a_dotted_parameter_takes_the_remaining_arguments() {
    let mut env = Environment::new();
    let params = cons(sym("a"), sym("more"));
    let args = list(vec![num(1.0), num(2.0), num(3.0)]);
    bind_params(params, args, &mut env, &Environment::new());
    assert_eq!(shown(&env, "a").as_deref(), Some("1"));
    assert_eq!(shown(&env, "more").as_deref(), Some("(2 3)"));
}

#[test]
fn too_few_arguments_leave_parameters_unbound() {
    let mut env = Environment::new();
    let params = list(vec![sym("a"), sym("b")]);
    bind_params(params, list(vec![num(1.0)]), &mut env, &Environment::new());
    assert_eq!(shown(&env, "a").as_deref(), Some("1"));
    assert!(env.get("b").is_none());
}

#[test]
fn too_many_arguments_are_discarded() {
    let mut env = Environment::new();
    let params = list(vec![sym("a")]);
    bind_params(params, list(vec![num(1.0), num(2.0)]), &mut env, &outer());
    assert_eq!(shown(&env, "a").as_deref(), Some("1"));
    assert_eq!(shown(&env, "x").as_deref(), Some("10"));
}

#[test]
fn other_shapes_bind_nothing() {
    let mut env = Environment::new();
    bind_params(nil(), list(vec![num(1.0)]), &mut env, &outer());
    assert!(env.get("x").is_none());
    bind_params(num(1.0), nil(), &mut env, &outer());
    assert!(env.get("x").is_none());
    bind_params(list(vec![sym("a")]), num(1.0), &mut env, &outer());
    assert!(env.get("a").is_none());
    assert!(env.get("x").is_none());
}

#[test]
fn interpreter_keeps_environments_by_handle() {
    let mut interp: Interpreter<Arith, Native> = Interpreter::new(arith as Arith, 4);
    assert_eq!(interp.environments(), 0);
    let a = interp.adopt(outer());
    let b = interp.adopt(Environment::new());
    assert_eq!(a, EnvRef { index: 0 });
    assert_eq!(b, EnvRef { index: 1 });
    assert_eq!(interp.environments(), 2);
    assert_eq!(print_value(&interp.lookup(a, "x"), &format), "10");
    assert_eq!(print_value(&interp.lookup(b, "x"), &format), "()");
    interp.define(b, "x".to_string(), num(5.0));
    assert_eq!(print_value(&interp.lookup(b, "x"), &format), "5");
    assert_eq!(print_value(&interp.lookup(a, "x"), &format), "10");
    assert!(interp.environment(a).is_some());
    assert!(interp.environment(EnvRef { index: 2 }).is_none());
}

#[test]
fn defining_through_an_unknown_handle_changes_nothing() {
    let mut interp: Interpreter<Arith, Native> = Interpreter::new(arith as Arith, 4);
    let a = interp.adopt(Environment::new());
    interp.define(EnvRef { index: 5 }, "x".to_string(), num(5.0));
    assert_eq!(interp.environments(), 1);
    assert!(!interp.is_bound(a, "x"));
    assert!(!interp.is_bound(EnvRef { index: 5 }, "x"));
}

#[test]
fn entering_a_closure_copies_the_captured_environment() {
    let mut interp: Interpreter<Arith, Native> = Interpreter::new(arith as Arith, 4);
    let captured = interp.adopt(outer());
    let params = list(vec![sym("a")]);
    let args = list(vec![num(1.0)]);
    let callee = enter_closure(&params, &args, captured, &mut interp);
    assert_eq!(callee, EnvRef { index: 1 });
    assert_eq!(print_value(&interp.lookup(callee, "a"), &format), "1");
    assert_eq!(print_value(&interp.lookup(callee, "x"), &format), "10");
    interp.define(callee, "x".to_string(), num(0.0));
    assert_eq!(print_value(&interp.lookup(captured, "x"), &format), "10");
    let orphan = enter_closure(&params, &args, EnvRef { index: 9 }, &mut interp);
    assert_eq!(print_value(&interp.lookup(orphan, "a"), &format), "1");
    assert!(!interp.is_bound(orphan, "x"));
}

#[test]
fn leaving_discards_what_no_closure_holds() {
    let mut interp: Interpreter<Arith, Native> = Interpreter::new(arith as Arith, 4);
    let global = interp.adopt(outer());
    let first = interp.adopt(Environment::new());
    let second = interp.adopt(Environment::new());
    assert_eq!(interp.environments(), 3);
    interp.leave(second);
    assert_eq!(interp.environments(), 2);
    interp.pin(first);
    interp.leave(first);
    assert_eq!(interp.environments(), 2);
    interp.leave(global);
    assert_eq!(interp.environments(), 2);
    let third = interp.adopt(Environment::new());
    let fourth = interp.adopt(Environment::new());
    assert_eq!(fourth, EnvRef { index: 3 });
    interp.leave(third);
    assert_eq!(interp.environments(), 2);
    interp.leave(EnvRef { index: 9 });
    assert_eq!(interp.environments(), 2);
    assert_eq!(print_value(&interp.lookup(global, "x"), &format), "10");
}

#[test]
fn diagnostics_are_kept_in_order() {
    let mut interp: Interpreter<Arith, Native> = Interpreter::new(arith as Arith, 4);
    interp.report("first".to_string());
    interp.report("second".to_string());
    assert_eq!(interp.diagnostics(), &vec!["first".to_string(), "second".to_string()]);
}
