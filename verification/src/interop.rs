//! The embedded side of the bridge: conversions between host values and
//! values of the language, and calls from the host into the language.

use crate::eval::{eval, evaluated};
use crate::interpreter::{function_not_found, Host, Interpreter, World};
use crate::number::ArithOp;
use crate::parser::{number_model, number_ok, read, read_spec, ReadError};
use crate::rust_functions::views;
use crate::semantics::{eval_spec, Outcome};
use crate::types::{cons, share, Datum, EnvRef, Value};
use std::rc::Rc;
use vstd::prelude::*;
use vstd::string::*;

verus! {

/// What a host-initiated call of `name` gives: without a binding for `name`
/// in `env`, `Nil` and a diagnostic; with one, the value of the application
/// form whose head is the bound value and whose operands are `args`.
pub open spec fn call_spec(
    host: Host,
    world: World,
    name: Seq<char>,
    args: Seq<Datum>,
    env: EnvRef,
    fuel: nat,
) -> Outcome {
    if world.bindings(env).contains_key(name) {
        eval_spec(
            host,
            world,
            Datum::Pair(Box::new(world.bindings(env)[name]), Box::new(Datum::list(args))),
            env,
            fuel,
        )
    } else {
        Outcome { value: Datum::Nil, world: world.report(function_not_found(name)) }
    }
}

/// Calls what `func_name` is bound to in `env` on `args`.
pub fn call_lisp_function<A: Fn(ArithOp, u64, u64) -> u64, H: Fn(Vec<Rc<Value>>) -> Rc<Value>>(
    func_name: &str,
    args: Vec<Rc<Value>>,
    env: EnvRef,
    interp: &mut Interpreter<A, H>,
) -> (value: Rc<Value>)
    requires
        old(interp).wf(),
    ensures
        evaluated(
            *old(interp),
            *final(interp),
            value@,
            call_spec(
                old(interp).host(),
                old(interp).world(),
                func_name@,
                views(args@),
                env,
                old(interp).depth_limit(),
            ),
        ),
{
    if !interp.is_bound(env, func_name) {
        let mut message = String::from_str("Function '");
        message.append(func_name);
        message.append("' not found in environment");
        interp.report(message);
        return Rc::new(Value::Nil);
    }
    let func = interp.lookup(env, func_name);
    let arg_list = rust_to_lisp_list(args);
    let expr = cons(func, arg_list);
    eval(expr, env, interp)
}

/// Converts the bit pattern of a host double to a number.
pub fn rust_to_lisp_number(n: u64) -> (value: Rc<Value>)
    ensures
        value@ == Datum::Number(n),
{
    Rc::new(Value::Number(n))
}

/// Converts a host string to a symbol.
pub fn rust_to_lisp_symbol(s: &str) -> (value: Rc<Value>)
    ensures
        value@ == Datum::Symbol(s@),
{
    Rc::new(Value::Symbol(s.to_owned()))
}

/// Converts a host boolean to a boolean of the language.
pub fn rust_to_lisp_bool(b: bool) -> (value: Rc<Value>)
    ensures
        value@ == Datum::Bool(b),
{
    Rc::new(Value::Bool(b))
}

/// Converts a vector to the list of its items, in order.
pub fn rust_to_lisp_list(v: Vec<Rc<Value>>) -> (list: Rc<Value>)
    ensures
        list@ == Datum::list(views(v@)),
{
    let mut result = Rc::new(Value::Nil);
    let mut i: usize = v.len();
    while i > 0
        invariant
            i <= v.len(),
            result@ == Datum::list(views(v@).skip(i as int)),
        decreases i,
    {
        i -= 1;
        assert(views(v@).skip(i as int).drop_first() =~= views(v@).skip(i + 1));
        result = cons(share(&v[i]), result);
    }
    assert(views(v@).skip(0) =~= views(v@));
    result
}

/// The pattern of a number; nothing for any other value.
pub fn lisp_to_rust_number(v: &Rc<Value>) -> (n: Option<u64>)
    ensures
        n == (match v@ {
            Datum::Number(bits) => Some(bits),
            _ => None,
        }),
{
    match &**v {
        Value::Number(n) => Some(*n),
        _ => None,
    }
}

/// The name of a symbol; nothing for any other value.
pub fn lisp_to_rust_string(v: &Rc<Value>) -> (s: Option<String>)
    ensures
        match v@ {
            Datum::Symbol(name) => s matches Some(text) && text@ == name,
            _ => s is None,
        },
{
    match &**v {
        Value::Symbol(s) => Some(s.clone()),
        _ => None,
    }
}

/// The truth value of a boolean, false for `Nil`, nothing for any other
/// value.
pub fn lisp_to_rust_bool(v: &Rc<Value>) -> (b: Option<bool>)
    ensures
        b == (match v@ {
            Datum::Bool(truth) => Some(truth),
            Datum::Nil => Some(false),
            _ => None,
        }),
{
    match &**v {
        Value::Bool(b) => Some(*b),
        Value::Nil => Some(false),
        _ => None,
    }
}

/// Converts a list to a vector: the heads met while walking pairs until a
/// tail is not a pair. What follows the last pair is dropped silently.
pub fn lisp_to_rust_vector(v: &Rc<Value>) -> (result: Vec<Rc<Value>>)
    ensures
        views(result@) == v@.elements(),
{
    let mut result: Vec<Rc<Value>> = Vec::new();
    let mut current = share(v);
    loop
        invariant
            views(result@) + current@.elements() == v@.elements(),
        ensures
            views(result@) == v@.elements(),
        decreases current@,
    {
        let step = match &*current {
            Value::Cons(car_val, cdr_val) => Some((share(car_val), share(cdr_val))),
            _ => None,
        };
        match step {
            Some((head, tail)) => {
                proof {
                    assert(views(result@.push(head)) + tail@.elements() =~= views(result@)
                        + current@.elements());
                }
                result.push(head);
                current = tail;
            },
            None => {
                break ;
            },
        }
    }
    result
}

/// A list holds its items in order: walking the list that was built from a
/// sequence of items gives that sequence back.
pub proof fn list_round_trip(items: Seq<Datum>)
    ensures
        Datum::list(items).elements() == items,
    decreases items.len(),
{
    if items.len() > 0 {
        list_round_trip(items.drop_first());
    } else {
    }
}

/// What defining a closure from source gives: the first failure of the
/// reader, on the parameter list before the body, with the world unchanged;
/// or the world in which `name` is bound in `env` to the closure over `env`.
pub open spec fn register_spec(
    number: spec_fn(Seq<char>) -> Option<u64>,
    world: World,
    name: Seq<char>,
    params: Seq<char>,
    body: Seq<char>,
    env: EnvRef,
) -> Result<World, ReadError> {
    match read_spec(number, params) {
        Err(e) => Err(e),
        Ok(params_expr) => match read_spec(number, body) {
            Err(e) => Err(e),
            Ok(body_expr) => Ok(
                world.pin(env).define(
                    env,
                    name,
                    Datum::Closure(Box::new(params_expr), Box::new(body_expr), env),
                ),
            ),
        },
    }
}

/// Reads a parameter list and a body from source text and binds `name` in
/// `env` to the closure over `env` that they make.
pub fn register_lisp_function<
    A: Fn(ArithOp, u64, u64) -> u64,
    H: Fn(Vec<Rc<Value>>) -> Rc<Value>,
    P: Fn(&str) -> Option<u64>,
>(
    name: &str,
    params: &str,
    body: &str,
    env: EnvRef,
    interp: &mut Interpreter<A, H>,
    number: &P,
) -> (result: Result<(), ReadError>)
    requires
        number_ok(*number),
    ensures
        final(interp).continues(*old(interp)),
        match result {
            Ok(_) => register_spec(
                number_model(*number),
                old(interp).world(),
                name@,
                params@,
                body@,
                env,
            ) == Ok::<World, ReadError>(final(interp).world()),
            Err(e) => register_spec(
                number_model(*number),
                old(interp).world(),
                name@,
                params@,
                body@,
                env,
            ) == Err::<World, ReadError>(e) && final(interp).world() == old(interp).world(),
        },
{
    let params_expr = match read(params, number) {
        Ok(expr) => expr,
        Err(e) => {
            return Err(e);
        },
    };
    let body_expr = match read(body, number) {
        Ok(expr) => expr,
        Err(e) => {
            return Err(e);
        },
    };
    let lambda = Rc::new(Value::Lambda(params_expr, body_expr, env));
    interp.pin(env);
    interp.define(env, name.to_owned(), lambda);
    Ok(())
}

} // verus!
