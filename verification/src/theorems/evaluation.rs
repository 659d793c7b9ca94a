//! What holds of the forms of the language, whatever the host lends.

use crate::interpreter::{rust_function_not_found, Host, World};
use crate::number::{is_zero, ArithOp, ONE, ZERO};
use crate::parser::quoted;
use crate::rust_functions::patterns;
use crate::semantics::{
    apply_spec, bind, compared, divisors, entered, eval_list_spec, eval_spec, numeric, operands,
    Outcome,
};
use crate::types::{Datum, EnvRef, Primitive};
use vstd::prelude::*;

verus! {

/// `quote` gives its operand back unevaluated, and changes nothing.
pub proof fn quote_returns_its_operand(
    host: Host,
    world: World,
    env: EnvRef,
    fuel: nat,
    operand: Datum,
)
    requires
        world.lookup(env, "quote"@) matches Datum::Native(_, form) && form == Primitive::Quote,
    ensures
        eval_spec(host, world, quoted(operand), env, fuel) == (Outcome { value: operand, world }),
{
    reveal_with_fuel(eval_spec, 2);
}

/// A symbol without a binding evaluates to `Nil`, and changes nothing.
pub proof fn unbound_symbol_is_nil(
    host: Host,
    world: World,
    env: EnvRef,
    fuel: nat,
    name: Seq<char>,
)
    requires
        !world.bindings(env).contains_key(name),
    ensures
        eval_spec(host, world, Datum::Symbol(name), env, fuel) == (Outcome {
            value: Datum::Nil,
            world,
        }),
{
}

/// An operand without a binding does not fail the form around it: it counts
/// as `Nil` among the evaluated operands, and those behind it are evaluated
/// as without it.
pub proof fn unbound_operand_counts_as_nil(
    host: Host,
    world: World,
    env: EnvRef,
    fuel: nat,
    name: Seq<char>,
    rest: Datum,
)
    requires
        !world.bindings(env).contains_key(name),
    ensures
        eval_list_spec(
            host,
            world,
            Datum::Pair(Box::new(Datum::Symbol(name)), Box::new(rest)),
            env,
            fuel,
        ) == (Outcome {
            value: Datum::Pair(
                Box::new(Datum::Nil),
                Box::new(eval_list_spec(host, world, rest, env, fuel).value),
            ),
            world: eval_list_spec(host, world, rest, env, fuel).world,
        }),
{
    unbound_symbol_is_nil(host, world, env, fuel, name);
}

/// A closure sees what its captured environment holds when it is called,
/// not what it held when the closure was made: a closure without parameters
/// whose body is a symbol gives what that symbol was last bound to in the
/// captured environment before the call.
pub proof fn closure_sees_bindings_at_call_time(
    host: Host,
    world: World,
    env: EnvRef,
    fuel: nat,
    closure: Seq<char>,
    captured: EnvRef,
    name: Seq<char>,
    value: Datum,
)
    requires
        fuel > 0,
        !world.exhausted,
        !world.full(),
        captured.index < world.envs.len(),
        world.define(captured, name, value).lookup(env, closure) == Datum::Closure(
            Box::new(Datum::Nil),
            Box::new(Datum::Symbol(name)),
            captured,
        ),
    ensures
        eval_spec(
            host,
            world.define(captured, name, value),
            Datum::Pair(Box::new(Datum::Symbol(closure)), Box::new(Datum::Nil)),
            env,
            fuel,
        ).value == value,
{
    let at_call = world.define(captured, name, value);
    let form = Datum::Pair(Box::new(Datum::Symbol(closure)), Box::new(Datum::Nil));
    assert(eval_spec(host, at_call, Datum::Symbol(closure), env, fuel).value == Datum::Closure(
        Box::new(Datum::Nil),
        Box::new(Datum::Symbol(name)),
        captured,
    ));
    assert(eval_list_spec(host, at_call, Datum::Nil, env, fuel) == (Outcome {
        value: Datum::Nil,
        world: at_call,
    }));
    let inside = entered(at_call, Datum::Nil, Datum::Nil, captured);
    assert(eval_spec(host, inside, Datum::Symbol(name), at_call.next(), (fuel - 1) as nat).value
        == value);
    assert(eval_spec(host, at_call, form, env, fuel).value == eval_spec(
        host,
        inside,
        Datum::Symbol(name),
        at_call.next(),
        (fuel - 1) as nat,
    ).value);
}

/// The environment of a call is a copy: binding a name in it changes no
/// other environment, the captured one included.
pub proof fn call_environment_is_a_copy(
    world: World,
    params: Datum,
    args: Datum,
    captured: EnvRef,
    other: EnvRef,
    name: Seq<char>,
    value: Datum,
)
    requires
        world.fits(),
        other.index < world.envs.len(),
    ensures
        entered(world, params, args, captured).define(world.next(), name, value).bindings(other)
            == world.bindings(other),
{
}

/// What one parameter is bound to in a call with one argument: the
/// argument, unless the captured environment binds the same name. The match
/// ends by copying every captured binding, the parameter's namesake with
/// them.
pub proof fn captured_binding_replaces_parameter(
    name: Seq<char>,
    argument: Datum,
    captured: Map<Seq<char>, Datum>,
)
    ensures
        ({
            let frame = bind(
                Datum::list(seq![Datum::Symbol(name)]),
                Datum::list(seq![argument]),
                Map::empty(),
                captured,
            );
            &&& frame.contains_key(name)
            &&& frame[name] == (if captured.contains_key(name) {
                captured[name]
            } else {
                argument
            })
            &&& forall|other: Seq<char>|
                other != name ==> (frame.contains_key(other) <==> captured.contains_key(other))
            &&& forall|other: Seq<char>|
                captured.contains_key(other) ==> frame[other] == captured[other]
        }),
{
    reveal_with_fuel(bind, 3);
    let params = seq![Datum::Symbol(name)];
    let args = seq![argument];
    assert(Datum::list(params.drop_first()) == Datum::Nil);
    assert(Datum::list(args.drop_first()) == Datum::Nil);
    assert(Datum::list(params) == Datum::Pair(
        Box::new(Datum::Symbol(name)),
        Box::new(Datum::Nil),
    ));
}

/// A symbol as the whole parameter specification is bound to the whole
/// argument list, and no captured binding replaces it.
pub proof fn symbol_takes_all_arguments(
    name: Seq<char>,
    arguments: Datum,
    captured: Map<Seq<char>, Datum>,
)
    ensures
        bind(Datum::Symbol(name), arguments, Map::empty(), captured).contains_key(name),
        bind(Datum::Symbol(name), arguments, Map::empty(), captured)[name] == arguments,
{
}

/// A parameter without an argument stays unbound, unless the parameters
/// before it copied a captured binding of its name.
pub proof fn missing_argument_leaves_parameter_unbound(
    first: Seq<char>,
    second: Seq<char>,
    argument: Datum,
    captured: Map<Seq<char>, Datum>,
)
    requires
        first != second,
        !captured.contains_key(second),
    ensures
        !bind(
            Datum::list(seq![Datum::Symbol(first), Datum::Symbol(second)]),
            Datum::list(seq![argument]),
            Map::empty(),
            captured,
        ).contains_key(second),
{
    reveal_with_fuel(bind, 3);
    let params = seq![Datum::Symbol(first), Datum::Symbol(second)];
    let args = seq![argument];
    assert(Datum::list(args.drop_first()) == Datum::Nil);
    assert(Datum::list(params.drop_first().drop_first()) == Datum::Nil);
    assert(Datum::list(params.drop_first()) == Datum::Pair(
        Box::new(Datum::Symbol(second)),
        Box::new(Datum::Nil),
    ));
    assert(Datum::list(params) == Datum::Pair(
        Box::new(Datum::Symbol(first)),
        Box::new(Datum::list(params.drop_first())),
    ));
}

/// `define` binds in place: the value it gives is what the name is bound to
/// afterwards, in the environment it was evaluated in.
pub proof fn define_binds_in_place(
    host: Host,
    world: World,
    env: EnvRef,
    fuel: nat,
    name: Seq<char>,
    init: Datum,
    more: Datum,
)
    requires
        eval_spec(host, world, init, env, fuel).world.envs.len() > env.index,
    ensures
        ({
            let operands = Datum::Pair(
                Box::new(Datum::Symbol(name)),
                Box::new(Datum::Pair(Box::new(init), Box::new(more))),
            );
            let defined = apply_spec(host, world, Primitive::Define, operands, env, fuel);
            &&& defined.value == eval_spec(host, world, init, env, fuel).value
            &&& defined.world.lookup(env, name) == defined.value
        }),
{
}

/// Without operands, `+` gives zero and `*` gives one, the identities of the
/// two folds; `-` and `/` give zero for want of a first operand.
pub proof fn arithmetic_without_operands(arith: spec_fn(ArithOp, u64, u64) -> u64)
    ensures
        numeric(arith, Primitive::Add, Datum::Nil) == Datum::Number(ZERO),
        numeric(arith, Primitive::Mul, Datum::Nil) == Datum::Number(ONE),
        numeric(arith, Primitive::Sub, Datum::Nil) == Datum::Number(ZERO),
        numeric(arith, Primitive::Div, Datum::Nil) == Datum::Number(ZERO),
{
}

/// `-` and `/` on one number give that number.
pub proof fn arithmetic_on_one_operand(arith: spec_fn(ArithOp, u64, u64) -> u64, first: u64)
    ensures
        numeric(arith, Primitive::Sub, Datum::list(seq![Datum::Number(first)])) == Datum::Number(
            first,
        ),
        numeric(arith, Primitive::Div, Datum::list(seq![Datum::Number(first)])) == Datum::Number(
            first,
        ),
{
    let one = seq![Datum::Number(first)];
    assert(Datum::list(one.drop_first()) == Datum::Nil);
}

/// A divisor that is zero is passed over: dividing by it alone leaves the
/// dividend as it is, whatever the host's division would have made of it.
pub proof fn zero_divisor_is_skipped(
    arith: spec_fn(ArithOp, u64, u64) -> u64,
    dividend: u64,
    divisor: u64,
)
    requires
        is_zero(divisor),
    ensures
        numeric(
            arith,
            Primitive::Div,
            Datum::Pair(
                Box::new(Datum::Number(dividend)),
                Box::new(Datum::Pair(Box::new(Datum::Number(divisor)), Box::new(Datum::Nil))),
            ),
        ) == Datum::Number(dividend),
{
    reveal_with_fuel(divisors, 2);
}

/// A comparison of anything but two numbers is false.
pub proof fn comparison_of_the_wrong_shape_is_false(
    arith: spec_fn(ArithOp, u64, u64) -> u64,
    list: Datum,
)
    requires
        compared(list) is None,
    ensures
        numeric(arith, Primitive::NumEq, list) == Datum::Bool(false),
        numeric(arith, Primitive::Less, list) == Datum::Bool(false),
        numeric(arith, Primitive::Greater, list) == Datum::Bool(false),
{
}

/// A `rust-call` of a name that is not registered gives `Nil` and writes a
/// diagnostic that names it, after the operands were evaluated.
pub proof fn unregistered_call_is_nil(
    host: Host,
    world: World,
    env: EnvRef,
    fuel: nat,
    name: Seq<char>,
    operands: Datum,
)
    requires
        !host.knows(name),
    ensures
        apply_spec(
            host,
            world,
            Primitive::RustCall,
            Datum::Pair(Box::new(Datum::Symbol(name)), Box::new(operands)),
            env,
            fuel,
        ) == (Outcome {
            value: Datum::Nil,
            world: eval_list_spec(host, world, operands, env, fuel).world.report(
                rust_function_not_found(name),
            ),
        }),
{
}

/// The operands of an arithmetic form are the numbers among the elements of
/// its evaluated operand list, in the order of the list.
pub proof fn operands_are_the_numbers(list: Datum)
    ensures
        operands(list) == patterns(list.elements().filter(|d: Datum| d is Number)),
    decreases list,
{
    let number = |d: Datum| d is Number;
    match list {
        Datum::Pair(head, tail) => {
            operands_are_the_numbers(*tail);
            tail.elements().lemma_filter_prepend(*head, number);
        },
        _ => {},
    }
}

/// The divisors of `/` are its operands but the zeros.
pub proof fn divisors_are_the_operands_but_zero(list: Datum)
    ensures
        divisors(list) == operands(list).filter(|n: u64| !is_zero(n)),
    decreases list,
{
    let nonzero = |n: u64| !is_zero(n);
    match list {
        Datum::Pair(head, tail) => {
            divisors_are_the_operands_but_zero(*tail);
            match *head {
                Datum::Number(n) => {
                    operands(*tail).lemma_filter_prepend(n, nonzero);
                },
                _ => {},
            }
        },
        _ => {
        },
    }
}

} // verus!
