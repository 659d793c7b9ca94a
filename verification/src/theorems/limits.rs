//! What holds of the depth limit: it changes nothing unless it is hit.

use crate::interpreter::{Host, World};
use crate::semantics::{apply_spec, entered, eval_list_spec, eval_spec};
use crate::types::{Datum, EnvRef, Primitive};
use vstd::prelude::*;

verus! {

/// Evaluation never clears the mark that the depth ceiling leaves.
pub proof fn eval_keeps_exhaustion(host: Host, world: World, expr: Datum, env: EnvRef, fuel: nat)
    requires
        world.exhausted,
    ensures
        eval_spec(host, world, expr, env, fuel).world.exhausted,
    decreases fuel, expr, 0nat,
{
    match expr {
        Datum::Pair(head, tail) => {
            eval_keeps_exhaustion(host, world, *head, env, fuel);
            let func = eval_spec(host, world, *head, env, fuel);
            match func.value {
                Datum::Native(_, form) => {
                    apply_keeps_exhaustion(host, func.world, form, *tail, env, fuel);
                },
                Datum::Closure(_, _, _) => {
                    list_keeps_exhaustion(host, func.world, *tail, env, fuel);
                },
                _ => {},
            }
        },
        _ => {},
    }
}

/// Evaluating a list of operands never clears the mark that the depth
/// ceiling leaves.
pub proof fn list_keeps_exhaustion(host: Host, world: World, exprs: Datum, env: EnvRef, fuel: nat)
    requires
        world.exhausted,
    ensures
        eval_list_spec(host, world, exprs, env, fuel).world.exhausted,
    decreases fuel, exprs, 0nat,
{
    match exprs {
        Datum::Pair(head, tail) => {
            eval_keeps_exhaustion(host, world, *head, env, fuel);
            let first = eval_spec(host, world, *head, env, fuel);
            list_keeps_exhaustion(host, first.world, *tail, env, fuel);
        },
        _ => {},
    }
}

/// Applying a built-in form never clears the mark that the depth ceiling
/// leaves.
pub proof fn apply_keeps_exhaustion(
    host: Host,
    world: World,
    form: Primitive,
    args: Datum,
    env: EnvRef,
    fuel: nat,
)
    requires
        world.exhausted,
    ensures
        apply_spec(host, world, form, args, env, fuel).world.exhausted,
    decreases fuel, args, 1nat,
{
    match form {
        Primitive::Quote => {},
        Primitive::Lambda => {},
        Primitive::Define => match args {
            Datum::Pair(target, rest) => match (*target, *rest) {
                (Datum::Symbol(_), Datum::Pair(init, _)) => {
                    eval_keeps_exhaustion(host, world, *init, env, fuel);
                },
                _ => {},
            },
            _ => {},
        },
        Primitive::RustCall => match args {
            Datum::Pair(target, rest) => match *target {
                Datum::Symbol(_) => {
                    list_keeps_exhaustion(host, world, *rest, env, fuel);
                },
                _ => {},
            },
            _ => {},
        },
        _ => {
            list_keeps_exhaustion(host, world, args, env, fuel);
        },
    }
}

/// The depth limit changes nothing unless it is hit: an evaluation that ends
/// without the mark of the ceiling gives the same value and the same world
/// under every larger limit.
pub proof fn eval_under_a_larger_limit(
    host: Host,
    world: World,
    expr: Datum,
    env: EnvRef,
    fuel: nat,
    more: nat,
)
    requires
        fuel <= more,
        !eval_spec(host, world, expr, env, fuel).world.exhausted,
    ensures
        eval_spec(host, world, expr, env, more) == eval_spec(host, world, expr, env, fuel),
    decreases fuel, expr, 0nat,
{
    match expr {
        Datum::Pair(head, tail) => {
            let func = eval_spec(host, world, *head, env, fuel);
            if func.world.exhausted {
                match func.value {
                    Datum::Native(_, form) => {
                        apply_keeps_exhaustion(host, func.world, form, *tail, env, fuel);
                    },
                    Datum::Closure(_, _, _) => {
                        list_keeps_exhaustion(host, func.world, *tail, env, fuel);
                    },
                    _ => {},
                }
            }
            eval_under_a_larger_limit(host, world, *head, env, fuel, more);
            match func.value {
                Datum::Native(_, form) => {
                    apply_under_a_larger_limit(host, func.world, form, *tail, env, fuel, more);
                },
                Datum::Closure(params, body, captured) => {
                    let args = eval_list_spec(host, func.world, *tail, env, fuel);
                    list_under_a_larger_limit(host, func.world, *tail, env, fuel, more);
                    let inside = entered(args.world, *params, args.value, captured);
                    eval_under_a_larger_limit(
                        host,
                        inside,
                        *body,
                        args.world.next(),
                        (fuel - 1) as nat,
                        (more - 1) as nat,
                    );
                },
                _ => {},
            }
        },
        _ => {},
    }
}

/// The operands of a form evaluate alike under every larger depth limit,
/// unless the limit is hit.
pub proof fn list_under_a_larger_limit(
    host: Host,
    world: World,
    exprs: Datum,
    env: EnvRef,
    fuel: nat,
    more: nat,
)
    requires
        fuel <= more,
        !eval_list_spec(host, world, exprs, env, fuel).world.exhausted,
    ensures
        eval_list_spec(host, world, exprs, env, more) == eval_list_spec(
            host,
            world,
            exprs,
            env,
            fuel,
        ),
    decreases fuel, exprs, 0nat,
{
    match exprs {
        Datum::Pair(head, tail) => {
            let first = eval_spec(host, world, *head, env, fuel);
            if first.world.exhausted {
                list_keeps_exhaustion(host, first.world, *tail, env, fuel);
            }
            eval_under_a_larger_limit(host, world, *head, env, fuel, more);
            list_under_a_larger_limit(host, first.world, *tail, env, fuel, more);
        },
        _ => {},
    }
}

/// A built-in form gives the same under every larger depth limit, unless the
/// limit is hit.
pub proof fn apply_under_a_larger_limit(
    host: Host,
    world: World,
    form: Primitive,
    args: Datum,
    env: EnvRef,
    fuel: nat,
    more: nat,
)
    requires
        fuel <= more,
        !apply_spec(host, world, form, args, env, fuel).world.exhausted,
    ensures
        apply_spec(host, world, form, args, env, more) == apply_spec(
            host,
            world,
            form,
            args,
            env,
            fuel,
        ),
    decreases fuel, args, 1nat,
{
    match form {
        Primitive::Quote => {},
        Primitive::Lambda => {},
        Primitive::Define => match args {
            Datum::Pair(target, rest) => match (*target, *rest) {
                (Datum::Symbol(_), Datum::Pair(init, _)) => {
                    eval_under_a_larger_limit(host, world, *init, env, fuel, more);
                },
                _ => {},
            },
            _ => {},
        },
        Primitive::RustCall => match args {
            Datum::Pair(target, rest) => match *target {
                Datum::Symbol(_) => {
                    list_under_a_larger_limit(host, world, *rest, env, fuel, more);
                },
                _ => {},
            },
            _ => {},
        },
        _ => {
            list_under_a_larger_limit(host, world, args, env, fuel, more);
        },
    }
}

} // verus!
