//! The built-in forms.

use crate::eval::{eval_list_within, eval_within, evaluated};
use crate::interpreter::Interpreter;
use crate::number::{arith_model, arith_ok, compute, number_eq, number_is_zero, number_lt, ArithOp, ONE, ZERO};
use crate::rust_functions::rust_call;
use crate::semantics::{apply_spec, compared, divisors, fold, numeric, operands, seeded};
use crate::types::{car, cdr, model, share, EnvRef, Primitive, Value};
use std::rc::Rc;
use vstd::prelude::*;

verus! {

/// Folds the host's operation over the numbers among the elements of `list`,
/// from the left, starting with `acc`. With `skip_zero`, numbers that are
/// zero are passed over.
pub fn fold_numbers<A: Fn(ArithOp, u64, u64) -> u64>(
    arith: &A,
    op: ArithOp,
    acc: u64,
    list: &Rc<Value>,
    skip_zero: bool,
) -> (result: u64)
    requires
        arith_ok(*arith),
    ensures
        result == fold(
            arith_model(*arith),
            op,
            acc,
            if skip_zero {
                divisors(list@)
            } else {
                operands(list@)
            },
        ),
    decreases list@,
{
    proof {
        reveal_with_fuel(model, 3);
    }
    match &**list {
        Value::Cons(head, tail) => match &**head {
            Value::Number(n) => {
                if skip_zero && number_is_zero(*n) {
                    fold_numbers(arith, op, acc, tail, skip_zero)
                } else {
                    let next = compute(arith, op, acc, *n);
                    proof {
                        let rest = if skip_zero {
                            divisors(tail@)
                        } else {
                            operands(tail@)
                        };
                        assert((seq![*n] + rest).drop_first() =~= rest);
                    }
                    fold_numbers(arith, op, next, tail, skip_zero)
                }
            },
            _ => fold_numbers(arith, op, acc, tail, skip_zero),
        },
        _ => acc,
    }
}

/// What `-` or `/` gives for an evaluated operand list.
pub fn seeded_fold<A: Fn(ArithOp, u64, u64) -> u64>(arith: &A, op: ArithOp, list: &Rc<Value>) -> (result:
    u64)
    requires
        arith_ok(*arith),
    ensures
        result == seeded(arith_model(*arith), op, list@),
{
    proof {
        reveal_with_fuel(model, 3);
    }
    match &**list {
        Value::Cons(first, rest) => match &**first {
            Value::Number(n) => {
                let skip_zero = match op {
                    ArithOp::Div => true,
                    _ => false,
                };
                fold_numbers(arith, op, *n, rest, skip_zero)
            },
            _ => ZERO,
        },
        _ => ZERO,
    }
}

/// The first two elements of an evaluated operand list, when both are
/// numbers.
pub fn first_two_numbers(list: &Rc<Value>) -> (pair: Option<(u64, u64)>)
    ensures
        pair == compared(list@),
{
    proof {
        reveal_with_fuel(model, 3);
    }
    match &**list {
        Value::Cons(first, rest) => match &**first {
            Value::Number(a) => match &**rest {
                Value::Cons(second, _) => match &**second {
                    Value::Number(b) => Some((*a, *b)),
                    _ => None,
                },
                _ => None,
            },
            _ => None,
        },
        _ => None,
    }
}

/// What an arithmetic or comparison form gives for its evaluated operands.
pub fn apply_numeric<A: Fn(ArithOp, u64, u64) -> u64>(
    arith: &A,
    form: Primitive,
    list: &Rc<Value>,
) -> (value: Rc<Value>)
    requires
        arith_ok(*arith),
    ensures
        value@ == numeric(arith_model(*arith), form, list@),
{
    match form {
        Primitive::Add => Rc::new(
            Value::Number(fold_numbers(arith, ArithOp::Add, ZERO, list, false)),
        ),
        Primitive::Mul => Rc::new(
            Value::Number(fold_numbers(arith, ArithOp::Mul, ONE, list, false)),
        ),
        Primitive::Sub => Rc::new(Value::Number(seeded_fold(arith, ArithOp::Sub, list))),
        Primitive::Div => Rc::new(Value::Number(seeded_fold(arith, ArithOp::Div, list))),
        Primitive::NumEq => Rc::new(
            Value::Bool(
                match first_two_numbers(list) {
                    Some((a, b)) => number_eq(a, b),
                    None => false,
                },
            ),
        ),
        Primitive::Less => Rc::new(
            Value::Bool(
                match first_two_numbers(list) {
                    Some((a, b)) => number_lt(a, b),
                    None => false,
                },
            ),
        ),
        Primitive::Greater => Rc::new(
            Value::Bool(
                match first_two_numbers(list) {
                    Some((a, b)) => number_lt(b, a),
                    None => false,
                },
            ),
        ),
        _ => Rc::new(Value::Nil),
    }
}

/// Applies a built-in form to its unevaluated operands `args` in `env`, with
/// `fuel` levels of closure nesting left.
pub fn apply_primitive<A: Fn(ArithOp, u64, u64) -> u64, H: Fn(Vec<Rc<Value>>) -> Rc<Value>>(
    form: Primitive,
    args: &Rc<Value>,
    env: EnvRef,
    interp: &mut Interpreter<A, H>,
    fuel: usize,
) -> (value: Rc<Value>)
    requires
        old(interp).wf(),
    ensures
        evaluated(
            *old(interp),
            *final(interp),
            value@,
            apply_spec(old(interp).host(), old(interp).world(), form, args@, env, fuel as nat),
        ),
    decreases fuel, args@, 1nat,
{
    proof {
        reveal_with_fuel(model, 3);
    }
    match form {
        Primitive::Quote => car(args),
        Primitive::Lambda => {
            interp.pin(env);
            Rc::new(Value::Lambda(car(args), car(&cdr(args)), env))
        },
        Primitive::Define => match &**args {
            Value::Cons(target, rest) => match &**target {
                Value::Symbol(name) => {
                    let value = match &**rest {
                        Value::Cons(init, _) => eval_within(init, env, interp, fuel),
                        _ => Rc::new(Value::Nil),
                    };
                    interp.define(env, name.clone(), share(&value));
                    value
                },
                _ => Rc::new(Value::Nil),
            },
            _ => Rc::new(Value::Nil),
        },
        Primitive::RustCall => rust_call(args, env, interp, fuel),
        _ => {
            let list = eval_list_within(args, env, interp, fuel);
            apply_numeric(interp.arithmetic(), form, &list)
        },
    }
}

} // verus!
