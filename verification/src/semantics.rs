//! What evaluation means: the value and the world that each form gives.
//!
//! Evaluation is a function of the host's callables, the world, the
//! expression, the environment and the depth to which closure calls may still
//! nest. Entering a closure's body uses up one level of depth. At depth zero,
//! or once the ceiling has been hit, or where no further environment can be
//! had, a closure is not entered: the call yields `Nil` and the world records
//! that the ceiling was hit.
//!
//! A call gets a new environment. It is discarded when the call returns,
//! together with those made after it, unless a closure was made over one of
//! them in the meantime.

use crate::interpreter::{expected_function_name, rust_function_not_found, Host, World};
use crate::number::{equal, is_zero, less, ArithOp, ONE, ZERO};
use crate::types::{Datum, EnvRef, Primitive};
use vstd::prelude::*;

verus! {

/// A value together with the world that its evaluation left.
pub struct Outcome {
    pub value: Datum,
    pub world: World,
}

/// The bindings of `target` after a parameter specification is matched
/// against an argument list, with `outer` as the captured environment.
///
/// An exhausted specification with exhausted arguments copies every binding
/// of `outer`. A symbol takes all remaining arguments, then every binding of
/// `outer` but the one under its own name is copied. Two pairs bind head
/// against head, then tail against tail. Any other shape binds nothing.
pub open spec fn bind(
    params: Datum,
    args: Datum,
    target: Map<Seq<char>, Datum>,
    outer: Map<Seq<char>, Datum>,
) -> Map<Seq<char>, Datum>
    decreases params,
{
    match params {
        Datum::Nil => if args is Nil {
            target.union_prefer_right(outer)
        } else {
            target
        },
        Datum::Symbol(name) => target.insert(name, args).union_prefer_right(outer.remove(name)),
        Datum::Pair(p_head, p_tail) => match args {
            Datum::Pair(a_head, a_tail) => bind(
                *p_tail,
                *a_tail,
                bind(*p_head, *a_head, target, outer),
                outer,
            ),
            _ => target,
        },
        _ => target,
    }
}

/// The patterns of the numbers among the elements of a list, in order.
pub open spec fn operands(list: Datum) -> Seq<u64>
    decreases list,
{
    match list {
        Datum::Pair(head, tail) => match *head {
            Datum::Number(n) => seq![n] + operands(*tail),
            _ => operands(*tail),
        },
        _ => Seq::empty(),
    }
}

/// The patterns of the numbers other than zero among the elements of a list.
pub open spec fn divisors(list: Datum) -> Seq<u64>
    decreases list,
{
    match list {
        Datum::Pair(head, tail) => match *head {
            Datum::Number(n) => if is_zero(n) {
                divisors(*tail)
            } else {
                seq![n] + divisors(*tail)
            },
            _ => divisors(*tail),
        },
        _ => Seq::empty(),
    }
}

/// The host's operation applied from the left: to `acc` and the first
/// pattern, then to that result and the second, and so on.
pub open spec fn fold(
    arith: spec_fn(ArithOp, u64, u64) -> u64,
    op: ArithOp,
    acc: u64,
    rest: Seq<u64>,
) -> u64
    decreases rest.len(),
{
    if rest.len() == 0 {
        acc
    } else {
        fold(arith, op, arith(op, acc, rest[0]), rest.drop_first())
    }
}

/// Folding over a sequence with one more pattern at its end applies the
/// operation once more, to the fold so far and that pattern.
pub proof fn fold_push(
    arith: spec_fn(ArithOp, u64, u64) -> u64,
    op: ArithOp,
    acc: u64,
    rest: Seq<u64>,
    last: u64,
)
    ensures
        fold(arith, op, acc, rest.push(last)) == arith(op, fold(arith, op, acc, rest), last),
    decreases rest.len(),
{
    if rest.len() == 0 {
        let next = arith(op, acc, last);
        assert(rest.push(last).drop_first() =~= rest);
        assert(fold(arith, op, next, rest) == next);
    } else {
        assert(rest.push(last).drop_first() =~= rest.drop_first().push(last));
        fold_push(arith, op, arith(op, acc, rest[0]), rest.drop_first(), last);
    }
}

/// What `-` and `/` give for an evaluated operand list: the fold seeded with
/// the first operand when that is a number, and zero otherwise.
pub open spec fn seeded(arith: spec_fn(ArithOp, u64, u64) -> u64, op: ArithOp, list: Datum) -> u64 {
    match list {
        Datum::Pair(first, rest) => match *first {
            Datum::Number(n) => fold(
                arith,
                op,
                n,
                if op == ArithOp::Div {
                    divisors(*rest)
                } else {
                    operands(*rest)
                },
            ),
            _ => ZERO,
        },
        _ => ZERO,
    }
}

/// The two numbers that a comparison looks at: the first two elements of the
/// evaluated operand list, when both are numbers.
pub open spec fn compared(list: Datum) -> Option<(u64, u64)> {
    match list {
        Datum::Pair(first, rest) => match (*first, *rest) {
            (Datum::Number(a), Datum::Pair(second, _)) => match *second {
                Datum::Number(b) => Some((a, b)),
                _ => None,
            },
            _ => None,
        },
        _ => None,
    }
}

/// What an arithmetic or comparison form gives for its evaluated operands.
pub open spec fn numeric(
    arith: spec_fn(ArithOp, u64, u64) -> u64,
    form: Primitive,
    list: Datum,
) -> Datum {
    match form {
        Primitive::Add => Datum::Number(fold(arith, ArithOp::Add, ZERO, operands(list))),
        Primitive::Mul => Datum::Number(fold(arith, ArithOp::Mul, ONE, operands(list))),
        Primitive::Sub => Datum::Number(seeded(arith, ArithOp::Sub, list)),
        Primitive::Div => Datum::Number(seeded(arith, ArithOp::Div, list)),
        Primitive::NumEq => Datum::Bool(
            match compared(list) {
                Some((a, b)) => equal(a, b),
                None => false,
            },
        ),
        Primitive::Less => Datum::Bool(
            match compared(list) {
                Some((a, b)) => less(a, b),
                None => false,
            },
        ),
        Primitive::Greater => Datum::Bool(
            match compared(list) {
                Some((a, b)) => less(b, a),
                None => false,
            },
        ),
        _ => Datum::Nil,
    }
}

/// What a host callable, reached by name, gives for evaluated arguments: its
/// result, or `Nil` and a diagnostic when nothing is registered under `name`.
pub open spec fn bridged(host: Host, world: World, name: Seq<char>, args: Datum) -> Outcome {
    if host.knows(name) {
        Outcome { value: host.call(name, args.elements()), world }
    } else {
        Outcome { value: Datum::Nil, world: world.report(rust_function_not_found(name)) }
    }
}

/// What a closure gives for evaluated arguments when `fuel` levels of depth
/// are left: the world in which its body is then evaluated, and the handle of
/// the call environment. The call environment is new; it holds what matching
/// `params` against `args` binds, over a copy of what `captured` holds at
/// this moment.
pub open spec fn entered(world: World, params: Datum, args: Datum, captured: EnvRef) -> World {
    world.enter(bind(params, args, Map::empty(), world.bindings(captured)))
}

/// The value of `expr` in `env`, and the world after its evaluation.
pub open spec fn eval_spec(
    host: Host,
    world: World,
    expr: Datum,
    env: EnvRef,
    fuel: nat,
) -> Outcome
    decreases fuel, expr, 0nat,
{
    match expr {
        Datum::Symbol(name) => Outcome { value: world.lookup(env, name), world },
        Datum::Pair(head, tail) => {
            let func = eval_spec(host, world, *head, env, fuel);
            match func.value {
                Datum::Native(_, form) => apply_spec(host, func.world, form, *tail, env, fuel),
                Datum::Closure(params, body, captured) => {
                    let args = eval_list_spec(host, func.world, *tail, env, fuel);
                    if fuel == 0 || args.world.exhausted || args.world.full() {
                        Outcome { value: Datum::Nil, world: args.world.exhaust() }
                    } else {
                        let callee = args.world.next();
                        let result = eval_spec(
                            host,
                            entered(args.world, *params, args.value, captured),
                            *body,
                            callee,
                            (fuel - 1) as nat,
                        );
                        Outcome { value: result.value, world: result.world.leave(callee) }
                    }
                },
                _ => Outcome { value: Datum::Nil, world: func.world },
            }
        },
        _ => Outcome { value: expr, world },
    }
}

/// The list of the values of the elements of `exprs`, evaluated from left to
/// right. Anything but a pair or `Nil` counts as one `Nil` element.
pub open spec fn eval_list_spec(
    host: Host,
    world: World,
    exprs: Datum,
    env: EnvRef,
    fuel: nat,
) -> Outcome
    decreases fuel, exprs, 0nat,
{
    match exprs {
        Datum::Nil => Outcome { value: Datum::Nil, world },
        Datum::Pair(head, tail) => {
            let first = eval_spec(host, world, *head, env, fuel);
            let rest = eval_list_spec(host, first.world, *tail, env, fuel);
            Outcome {
                value: Datum::Pair(Box::new(first.value), Box::new(rest.value)),
                world: rest.world,
            }
        },
        _ => Outcome {
            value: Datum::Pair(Box::new(Datum::Nil), Box::new(Datum::Nil)),
            world,
        },
    }
}

/// What a built-in form gives for its unevaluated operands `args`.
pub open spec fn apply_spec(
    host: Host,
    world: World,
    form: Primitive,
    args: Datum,
    env: EnvRef,
    fuel: nat,
) -> Outcome
    decreases fuel, args, 1nat,
{
    match form {
        Primitive::Quote => Outcome { value: args.head(), world },
        Primitive::Lambda => Outcome {
            value: Datum::Closure(Box::new(args.head()), Box::new(args.tail().head()), env),
            world: world.pin(env),
        },
        Primitive::Define => match args {
            Datum::Pair(target, rest) => match *target {
                Datum::Symbol(name) => {
                    let bound = match *rest {
                        Datum::Pair(init, _) => eval_spec(host, world, *init, env, fuel),
                        _ => Outcome { value: Datum::Nil, world },
                    };
                    Outcome {
                        value: bound.value,
                        world: bound.world.define(env, name, bound.value),
                    }
                },
                _ => Outcome { value: Datum::Nil, world },
            },
            _ => Outcome { value: Datum::Nil, world },
        },
        Primitive::RustCall => match args {
            Datum::Pair(target, rest) => match *target {
                Datum::Symbol(name) => {
                    let passed = eval_list_spec(host, world, *rest, env, fuel);
                    bridged(host, passed.world, name, passed.value)
                },
                _ => Outcome {
                    value: Datum::Nil,
                    world: world.report(expected_function_name()),
                },
            },
            _ => Outcome { value: Datum::Nil, world: world.report(expected_function_name()) },
        },
        _ => {
            let list = eval_list_spec(host, world, args, env, fuel);
            Outcome { value: numeric(host.arith, form, list.value), world: list.world }
        },
    }
}

} // verus!
