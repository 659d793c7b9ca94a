//! What an evaluation leaves of the world: the environments that were
//! there, and the diagnostics that were written.

use crate::interpreter::{Host, World};
use crate::semantics::{apply_spec, bridged, entered, eval_list_spec, eval_spec};
use crate::types::{Datum, EnvRef, Primitive};
use vstd::prelude::*;

verus! {

/// `lambda` makes a closure over the environment it is evaluated in, and
/// that environment then stays: no return from a call discards it.
pub proof fn closure_keeps_its_environment(
    host: Host,
    world: World,
    env: EnvRef,
    fuel: nat,
    operands: Datum,
    callee: EnvRef,
)
    requires
        env.index < world.envs.len(),
    ensures
        apply_spec(host, world, Primitive::Lambda, operands, env, fuel).value == Datum::Closure(
            Box::new(operands.head()),
            Box::new(operands.tail().head()),
            env,
        ),
        apply_spec(host, world, Primitive::Lambda, operands, env, fuel).world.leave(
            callee,
        ).bindings(env) == world.bindings(env),
{
}

/// A return from a call discards no environment over which a closure was
/// made, and none that is older than the call.
pub proof fn leave_keeps_what_is_held(world: World, callee: EnvRef, env: EnvRef)
    requires
        env.index < world.pinned || env.index < callee.index,
    ensures
        world.leave(callee).bindings(env) == world.bindings(env),
{
}

/// A handle that names an environment before an evaluation names one after
/// it: evaluation discards no environment that was there when it began.
pub proof fn eval_keeps_handles(host: Host, world: World, expr: Datum, env: EnvRef, fuel: nat)
    requires
        world.fits(),
    ensures
        eval_spec(host, world, expr, env, fuel).world.fits(),
        eval_spec(host, world, expr, env, fuel).world.envs.len() >= world.envs.len(),
    decreases fuel, expr, 0nat,
{
    match expr {
        Datum::Pair(head, tail) => {
            eval_keeps_handles(host, world, *head, env, fuel);
            let func = eval_spec(host, world, *head, env, fuel);
            match func.value {
                Datum::Native(_, form) => {
                    apply_keeps_handles(host, func.world, form, *tail, env, fuel);
                },
                Datum::Closure(params, body, captured) => {
                    list_keeps_handles(host, func.world, *tail, env, fuel);
                    let args = eval_list_spec(host, func.world, *tail, env, fuel);
                    if !(fuel == 0 || args.world.exhausted || args.world.full()) {
                        eval_keeps_handles(
                            host,
                            entered(args.world, *params, args.value, captured),
                            *body,
                            args.world.next(),
                            (fuel - 1) as nat,
                        );
                    }
                },
                _ => {},
            }
        },
        _ => {},
    }
}

/// Evaluating a list of operands discards no environment that was there
/// when it began.
pub proof fn list_keeps_handles(host: Host, world: World, exprs: Datum, env: EnvRef, fuel: nat)
    requires
        world.fits(),
    ensures
        eval_list_spec(host, world, exprs, env, fuel).world.fits(),
        eval_list_spec(host, world, exprs, env, fuel).world.envs.len() >= world.envs.len(),
    decreases fuel, exprs, 0nat,
{
    match exprs {
        Datum::Pair(head, tail) => {
            eval_keeps_handles(host, world, *head, env, fuel);
            let first = eval_spec(host, world, *head, env, fuel);
            list_keeps_handles(host, first.world, *tail, env, fuel);
        },
        _ => {},
    }
}

/// Applying a built-in form discards no environment that was there when it
/// began.
pub proof fn apply_keeps_handles(
    host: Host,
    world: World,
    form: Primitive,
    args: Datum,
    env: EnvRef,
    fuel: nat,
)
    requires
        world.fits(),
    ensures
        apply_spec(host, world, form, args, env, fuel).world.fits(),
        apply_spec(host, world, form, args, env, fuel).world.envs.len() >= world.envs.len(),
    decreases fuel, args, 1nat,
{
    match form {
        Primitive::Quote => {},
        Primitive::Lambda => {},
        Primitive::Define => match args {
            Datum::Pair(target, rest) => match (*target, *rest) {
                (Datum::Symbol(_), Datum::Pair(init, _)) => {
                    eval_keeps_handles(host, world, *init, env, fuel);
                },
                _ => {},
            },
            _ => {},
        },
        Primitive::RustCall => match args {
            Datum::Pair(target, rest) => match *target {
                Datum::Symbol(_) => {
                    list_keeps_handles(host, world, *rest, env, fuel);
                },
                _ => {},
            },
            _ => {},
        },
        _ => {
            list_keeps_handles(host, world, args, env, fuel);
        },
    }
}

/// What begins a text that begins a third text begins the third.
pub proof fn prefix_of_prefix(a: Seq<Seq<char>>, b: Seq<Seq<char>>, c: Seq<Seq<char>>)
    requires
        a.is_prefix_of(b),
        b.is_prefix_of(c),
    ensures
        a.is_prefix_of(c),
{
    assert(a =~= c.subrange(0, a.len() as int));
}

/// Evaluation writes diagnostics and takes none back: what was written
/// before stands, in order, at the head of what is written after.
pub proof fn eval_appends_diagnostics(host: Host, world: World, expr: Datum, env: EnvRef, fuel: nat)
    ensures
        world.diagnostics.is_prefix_of(eval_spec(host, world, expr, env, fuel).world.diagnostics),
    decreases fuel, expr, 0nat,
{
    match expr {
        Datum::Pair(head, tail) => {
            eval_appends_diagnostics(host, world, *head, env, fuel);
            let func = eval_spec(host, world, *head, env, fuel);
            match func.value {
                Datum::Native(_, form) => {
                    apply_appends_diagnostics(host, func.world, form, *tail, env, fuel);
                    prefix_of_prefix(
                        world.diagnostics,
                        func.world.diagnostics,
                        apply_spec(host, func.world, form, *tail, env, fuel).world.diagnostics,
                    );
                },
                Datum::Closure(params, body, captured) => {
                    list_appends_diagnostics(host, func.world, *tail, env, fuel);
                    let args = eval_list_spec(host, func.world, *tail, env, fuel);
                    prefix_of_prefix(
                        world.diagnostics,
                        func.world.diagnostics,
                        args.world.diagnostics,
                    );
                    if !(fuel == 0 || args.world.exhausted || args.world.full()) {
                        let inside = entered(args.world, *params, args.value, captured);
                        eval_appends_diagnostics(
                            host,
                            inside,
                            *body,
                            args.world.next(),
                            (fuel - 1) as nat,
                        );
                        prefix_of_prefix(
                            world.diagnostics,
                            args.world.diagnostics,
                            eval_spec(
                                host,
                                inside,
                                *body,
                                args.world.next(),
                                (fuel - 1) as nat,
                            ).world.diagnostics,
                        );
                    }
                },
                _ => {},
            }
        },
        _ => {},
    }
}

/// Evaluating a list of operands writes diagnostics and takes none back.
pub proof fn list_appends_diagnostics(
    host: Host,
    world: World,
    exprs: Datum,
    env: EnvRef,
    fuel: nat,
)
    ensures
        world.diagnostics.is_prefix_of(
            eval_list_spec(host, world, exprs, env, fuel).world.diagnostics,
        ),
    decreases fuel, exprs, 0nat,
{
    match exprs {
        Datum::Pair(head, tail) => {
            eval_appends_diagnostics(host, world, *head, env, fuel);
            let first = eval_spec(host, world, *head, env, fuel);
            list_appends_diagnostics(host, first.world, *tail, env, fuel);
            prefix_of_prefix(
                world.diagnostics,
                first.world.diagnostics,
                eval_list_spec(host, first.world, *tail, env, fuel).world.diagnostics,
            );
        },
        _ => {},
    }
}

/// Applying a built-in form writes diagnostics and takes none back.
pub proof fn apply_appends_diagnostics(
    host: Host,
    world: World,
    form: Primitive,
    args: Datum,
    env: EnvRef,
    fuel: nat,
)
    ensures
        world.diagnostics.is_prefix_of(
            apply_spec(host, world, form, args, env, fuel).world.diagnostics,
        ),
    decreases fuel, args, 1nat,
{
    match form {
        Primitive::Quote => {},
        Primitive::Lambda => {},
        Primitive::Define => match args {
            Datum::Pair(target, rest) => match (*target, *rest) {
                (Datum::Symbol(_), Datum::Pair(init, _)) => {
                    eval_appends_diagnostics(host, world, *init, env, fuel);
                },
                _ => {},
            },
            _ => {},
        },
        Primitive::RustCall => match args {
            Datum::Pair(target, rest) => match *target {
                Datum::Symbol(name) => {
                    list_appends_diagnostics(host, world, *rest, env, fuel);
                    let passed = eval_list_spec(host, world, *rest, env, fuel);
                    prefix_of_prefix(
                        world.diagnostics,
                        passed.world.diagnostics,
                        bridged(host, passed.world, name, passed.value).world.diagnostics,
                    );
                },
                _ => {},
            },
            _ => {},
        },
        _ => {
            list_appends_diagnostics(host, world, args, env, fuel);
        },
    }
}

} // verus!
