//! The evaluator: a recursive walk over the expression.

use crate::environment::Environment;
use crate::interpreter::Interpreter;
use crate::number::ArithOp;
use crate::primitives::apply_primitive;
use crate::semantics::{bind, entered, eval_list_spec, eval_spec, Outcome};
use crate::types::{cons, model, share, Datum, EnvRef, Value};
use std::rc::Rc;
use vstd::prelude::*;

verus! {

/// An evaluation took the interpreter from `before` to `after` and gave
/// `value`: the host's callables and the depth limit are as they were, and
/// value and world are those of `outcome`.
pub open spec fn evaluated<A: Fn(ArithOp, u64, u64) -> u64, H: Fn(Vec<Rc<Value>>) -> Rc<Value>>(
    before: Interpreter<A, H>,
    after: Interpreter<A, H>,
    value: Datum,
    outcome: Outcome,
) -> bool {
    &&& after.continues(before)
    &&& after.world() == outcome.world
    &&& value == outcome.value
}

/// Matches a parameter specification against an argument list and writes the
/// bindings into `env`, with `outer_env` as the captured environment.
pub fn bind_params(
    params: Rc<Value>,
    args: Rc<Value>,
    env: &mut Environment,
    outer_env: &Environment,
)
    ensures
        final(env)@ == bind(params@, args@, old(env)@, outer_env@),
    decreases *params,
{
    proof {
        reveal_with_fuel(model, 3);
    }
    match &*params {
        Value::Nil => {
            if let Value::Nil = &*args {
                env.copy_from(outer_env);
            }
        },
        Value::Symbol(name) => {
            env.insert(name.clone(), share(&args));
            env.copy_from_except(outer_env, name.as_str());
        },
        Value::Cons(p_car, p_cdr) => {
            if let Value::Cons(a_car, a_cdr) = &*args {
                bind_params(share(p_car), share(a_car), env, outer_env);
                bind_params(share(p_cdr), share(a_cdr), env, outer_env);
            }
        },
        _ => {},
    }
}

/// Creates the environment of a closure call and gives its handle.
pub fn enter_closure<A: Fn(ArithOp, u64, u64) -> u64, H: Fn(Vec<Rc<Value>>) -> Rc<Value>>(
    params: &Rc<Value>,
    args: &Rc<Value>,
    captured: EnvRef,
    interp: &mut Interpreter<A, H>,
) -> (callee: EnvRef)
    ensures
        callee == old(interp).world().next(),
        final(interp).world() == entered(old(interp).world(), params@, args@, captured),
        final(interp).continues(*old(interp)),
{
    let mut frame = Environment::new();
    match interp.environment(captured) {
        Some(outer) => {
            bind_params(share(params), share(args), &mut frame, outer);
        },
        None => {
            let outer = Environment::new();
            bind_params(share(params), share(args), &mut frame, &outer);
        },
    }
    interp.adopt(frame)
}

/// Evaluates `expr` in `env` with `fuel` levels of closure nesting left.
pub fn eval_within<A: Fn(ArithOp, u64, u64) -> u64, H: Fn(Vec<Rc<Value>>) -> Rc<Value>>(
    expr: &Rc<Value>,
    env: EnvRef,
    interp: &mut Interpreter<A, H>,
    fuel: usize,
) -> (value: Rc<Value>)
    requires
        old(interp).wf(),
    ensures
        evaluated(
            *old(interp),
            *final(interp),
            value@,
            eval_spec(old(interp).host(), old(interp).world(), expr@, env, fuel as nat),
        ),
    decreases fuel, expr@, 0nat,
{
    match &**expr {
        Value::Symbol(name) => interp.lookup(env, name.as_str()),
        Value::Cons(head, tail) => {
            let func = eval_within(head, env, interp, fuel);
            match &*func {
                Value::Procedure(_, form) => apply_primitive(*form, tail, env, interp, fuel),
                Value::Lambda(params, body, captured) => {
                    let args = eval_list_within(tail, env, interp, fuel);
                    if fuel == 0 || interp.exhausted() || interp.environments() == usize::MAX {
                        interp.exhaust();
                        Rc::new(Value::Nil)
                    } else {
                        let callee = enter_closure(params, &args, *captured, interp);
                        let result = eval_within(body, callee, interp, fuel - 1);
                        interp.leave(callee);
                        result
                    }
                },
                _ => Rc::new(Value::Nil),
            }
        },
        _ => share(expr),
    }
}

/// Evaluates the elements of `exprs` from left to right, with `fuel` levels
/// of closure nesting left, and gives the list of their values.
pub fn eval_list_within<A: Fn(ArithOp, u64, u64) -> u64, H: Fn(Vec<Rc<Value>>) -> Rc<Value>>(
    exprs: &Rc<Value>,
    env: EnvRef,
    interp: &mut Interpreter<A, H>,
    fuel: usize,
) -> (values: Rc<Value>)
    requires
        old(interp).wf(),
    ensures
        evaluated(
            *old(interp),
            *final(interp),
            values@,
            eval_list_spec(old(interp).host(), old(interp).world(), exprs@, env, fuel as nat),
        ),
    decreases fuel, exprs@, 0nat,
{
    match &**exprs {
        Value::Nil => Rc::new(Value::Nil),
        Value::Cons(head, tail) => {
            let first = eval_within(head, env, interp, fuel);
            let rest = eval_list_within(tail, env, interp, fuel);
            cons(first, rest)
        },
        _ => cons(Rc::new(Value::Nil), Rc::new(Value::Nil)),
    }
}

/// Evaluates `expr` in `env`. Total: whatever goes wrong inside yields `Nil`.
/// Closure calls nest as deep as the interpreter's depth limit allows.
pub fn eval<A: Fn(ArithOp, u64, u64) -> u64, H: Fn(Vec<Rc<Value>>) -> Rc<Value>>(
    expr: Rc<Value>,
    env: EnvRef,
    interp: &mut Interpreter<A, H>,
) -> (value: Rc<Value>)
    requires
        old(interp).wf(),
    ensures
        evaluated(
            *old(interp),
            *final(interp),
            value@,
            eval_spec(
                old(interp).host(),
                old(interp).world(),
                expr@,
                env,
                old(interp).depth_limit(),
            ),
        ),
{
    let fuel = interp.limit();
    eval_within(&expr, env, interp, fuel)
}

/// Evaluates the elements of `exprs` in `env` from left to right and gives
/// the list of their values.
pub fn eval_list<A: Fn(ArithOp, u64, u64) -> u64, H: Fn(Vec<Rc<Value>>) -> Rc<Value>>(
    exprs: Rc<Value>,
    env: EnvRef,
    interp: &mut Interpreter<A, H>,
) -> (values: Rc<Value>)
    requires
        old(interp).wf(),
    ensures
        evaluated(
            *old(interp),
            *final(interp),
            values@,
            eval_list_spec(
                old(interp).host(),
                old(interp).world(),
                exprs@,
                env,
                old(interp).depth_limit(),
            ),
        ),
{
    let fuel = interp.limit();
    eval_list_within(&exprs, env, interp, fuel)
}

} // verus!
