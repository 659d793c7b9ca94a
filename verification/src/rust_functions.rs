//! The host side of the bridge: callables of the host that the embedded
//! language reaches by name.

use crate::eval::{eval_list_within, evaluated};
use crate::interop::lisp_to_rust_vector;
use crate::interpreter::{Host, Interpreter};
use crate::number::{arith_model, arith_ok, compute, ArithOp, ONE, ZERO};
use crate::semantics::{apply_spec, bridged, fold, fold_push};
use crate::table::Table;
use crate::types::{model, share, Datum, EnvRef, Primitive, Value};
use std::rc::Rc;
use vstd::prelude::*;
use vstd::string::*;

verus! {

/// The models of a sequence of values.
pub open spec fn views(values: Seq<Rc<Value>>) -> Seq<Datum> {
    values.map_values(|v: Rc<Value>| v@)
}

/// The callable accepts every argument sequence.
pub open spec fn native_total<H: Fn(Vec<Rc<Value>>) -> Rc<Value>>(f: H) -> bool {
    forall|args: Vec<Rc<Value>>| call_requires(f, (args,))
}

/// Some call of the callable on arguments with the models `args` gives a
/// value with the model `result`.
pub open spec fn native_gives<H: Fn(Vec<Rc<Value>>) -> Rc<Value>>(
    f: H,
    args: Seq<Datum>,
    result: Datum,
) -> bool {
    exists|a: Vec<Rc<Value>>, v: Rc<Value>|
        views(a@) == args && #[trigger] call_ensures(f, (a,), v) && v@ == result
}

/// What the callable gives for arguments with the models `args`.
pub open spec fn native_result<H: Fn(Vec<Rc<Value>>) -> Rc<Value>>(
    f: H,
    args: Seq<Datum>,
) -> Datum {
    choose|r: Datum| native_gives(f, args, r)
}

/// The callable is a function of what its arguments stand for: two calls
/// on arguments with the same models give values with the same model.
pub open spec fn native_functional<H: Fn(Vec<Rc<Value>>) -> Rc<Value>>(f: H) -> bool {
    forall|one: Vec<Rc<Value>>, other: Vec<Rc<Value>>, first: Rc<Value>, second: Rc<Value>|
        #![trigger call_ensures(f, (one,), first), call_ensures(f, (other,), second)]
        views(one@) == views(other@) && call_ensures(f, (one,), first) && call_ensures(
            f,
            (other,),
            second,
        ) ==> first@ == second@
}

/// The callable as a mathematical function.
pub open spec fn native_model<H: Fn(Vec<Rc<Value>>) -> Rc<Value>>(f: H) -> spec_fn(
    Seq<Datum>,
) -> Datum {
    |args: Seq<Datum>| native_result(f, args)
}

/// What a callable must be to be registered: total, and a function.
pub open spec fn native_ok<H: Fn(Vec<Rc<Value>>) -> Rc<Value>>(f: H) -> bool {
    native_total(f) && native_functional(f)
}

/// A name-keyed registry of host callables. Each takes the already evaluated
/// arguments in order and gives one value back.
pub struct RustFunctionRegistry<H> {
    functions: Table<H>,
}

impl<H: Fn(Vec<Rc<Value>>) -> Rc<Value>> RustFunctionRegistry<H> {
    /// The callable registered under each name.
    pub closed spec fn view(&self) -> Map<Seq<char>, H> {
        self.functions@
    }

    /// Every registered callable is total and a function.
    pub open spec fn wf(&self) -> bool {
        forall|name: Seq<char>| #[trigger]
            self.view().contains_key(name) ==> native_ok(self.view()[name])
    }

    /// Create a new empty registry.
    pub fn new() -> (registry: Self)
        ensures
            registry.view() == Map::<Seq<char>, H>::empty(),
            registry.wf(),
    {
        RustFunctionRegistry { functions: Table::new() }
    }

    /// Register a host callable under `name`. A callable registered earlier
    /// under the same name is replaced.
    pub fn register(&mut self, name: &str, func: H)
        requires
            old(self).wf(),
            native_ok(func),
        ensures
            final(self).view() == old(self).view().insert(name@, func),
            final(self).wf(),
    {
        self.functions.insert(name.to_owned(), func);
        assert forall|key: Seq<char>| #[trigger] self.view().contains_key(key) implies native_ok(
            self.view()[key],
        ) by {
            if key != name@ {
                assert(old(self).view().contains_key(key));
            }
        }
    }

    /// Get a registered host callable by name.
    pub fn get(&self, name: &str) -> (found: Option<&H>)
        ensures
            match found {
                Some(f) => self.view().contains_key(name@) && self.view()[name@] == *f,
                None => !self.view().contains_key(name@),
            },
    {
        self.functions.find(name)
    }
}

/// Calls the host callable registered under `name` with the elements of the
/// evaluated argument list `args`. Without a registration the result is `Nil`
/// and a diagnostic is written.
pub fn call_registered<A: Fn(ArithOp, u64, u64) -> u64, H: Fn(Vec<Rc<Value>>) -> Rc<Value>>(
    name: &str,
    args: &Rc<Value>,
    interp: &mut Interpreter<A, H>,
) -> (value: Rc<Value>)
    requires
        old(interp).wf(),
    ensures
        evaluated(
            *old(interp),
            *final(interp),
            value@,
            bridged(old(interp).host(), old(interp).world(), name@, args@),
        ),
{
    let arg_vec = lisp_to_rust_vector(args);
    match interp.call_native(name, arg_vec) {
        Some(result) => result,
        None => {
            let mut message = String::from_str("Rust function '");
            message.append(name);
            message.append("' not found");
            interp.report(message);
            Rc::new(Value::Nil)
        },
    }
}

/// The `rust-call` form: reads its first operand, unevaluated, as the name
/// of a host callable, evaluates the remaining operands in `env` and calls
/// the callable with their values.
pub fn rust_call<A: Fn(ArithOp, u64, u64) -> u64, H: Fn(Vec<Rc<Value>>) -> Rc<Value>>(
    args: &Rc<Value>,
    env: EnvRef,
    interp: &mut Interpreter<A, H>,
    fuel: usize,
) -> (value: Rc<Value>)
    requires
        old(interp).wf(),
    ensures
        evaluated(
            *old(interp),
            *final(interp),
            value@,
            apply_spec(
                old(interp).host(),
                old(interp).world(),
                Primitive::RustCall,
                args@,
                env,
                fuel as nat,
            ),
        ),
    decreases fuel, args@, 0nat,
{
    proof {
        reveal_with_fuel(model, 3);
    }
    match &**args {
        Value::Cons(target, rest) => match &**target {
            Value::Symbol(func_name) => {
                let eval_args = eval_list_within(rest, env, interp, fuel);
                call_registered(func_name.as_str(), &eval_args, interp)
            },
            _ => {
                interp.report(String::from_str("Expected function name as first argument"));
                Rc::new(Value::Nil)
            },
        },
        _ => {
            interp.report(String::from_str("Expected function name as first argument"));
            Rc::new(Value::Nil)
        },
    }
}

/// Registers a host callable under `name`, for `rust-call` to find.
pub fn register_rust_function<
    A: Fn(ArithOp, u64, u64) -> u64,
    H: Fn(Vec<Rc<Value>>) -> Rc<Value>,
>(interp: &mut Interpreter<A, H>, name: &str, func: H)
    requires
        old(interp).wf(),
        native_ok(func),
    ensures
        final(interp).wf(),
        final(interp).world() == old(interp).world(),
        final(interp).depth_limit() == old(interp).depth_limit(),
        final(interp).host() == (Host {
            natives: old(interp).host().natives.insert(name@, native_model(func)),
            ..old(interp).host()
        }),
{
    interp.register(name, func);
}

/// Binds `rust-call` in `env` to the form that calls into the host.
pub fn setup_rust_functions<
    A: Fn(ArithOp, u64, u64) -> u64,
    H: Fn(Vec<Rc<Value>>) -> Rc<Value>,
>(env: EnvRef, interp: &mut Interpreter<A, H>)
    ensures
        final(interp).world() == old(interp).world().define(
            env,
            "rust-call"@,
            Datum::Native("rust-call"@, Primitive::RustCall),
        ),
        final(interp).continues(*old(interp)),
{
    interp.define(
        env,
        "rust-call".to_owned(),
        Rc::new(Value::Procedure("rust-call".to_owned(), Primitive::RustCall)),
    );
}

/// Why a host function of this library gave no value.
#[derive(Clone, Copy, Debug, PartialEq, Eq, Structural)]
pub enum ArgumentError {
    /// Fewer than two arguments were passed.
    TooFew,
    /// More or fewer than one argument were passed.
    NotOne,
    /// An argument is not a number.
    NotNumeric,
    /// The argument is not a symbol.
    NotSymbol,
}

impl ArgumentError {
    /// The diagnostic for this failure of the host function `function`.
    pub open spec fn text(self, function: Seq<char>) -> Seq<char> {
        function + (match self {
            ArgumentError::TooFew => " requires at least two arguments"@,
            ArgumentError::NotOne => " requires exactly one argument"@,
            ArgumentError::NotNumeric => " requires numeric arguments"@,
            ArgumentError::NotSymbol => " requires a symbol argument"@,
        })
    }

    /// The diagnostic for this failure of the host function `function`.
    pub fn message(&self, function: &str) -> (message: String)
        ensures
            message@ == self.text(function@),
    {
        let mut message = String::from_str(function);
        match self {
            ArgumentError::TooFew => message.append(" requires at least two arguments"),
            ArgumentError::NotOne => message.append(" requires exactly one argument"),
            ArgumentError::NotNumeric => message.append(" requires numeric arguments"),
            ArgumentError::NotSymbol => message.append(" requires a symbol argument"),
        }
        message
    }
}

/// Whether every argument is a number.
pub open spec fn all_numbers(args: Seq<Datum>) -> bool {
    forall|i: int| 0 <= i < args.len() ==> #[trigger] args[i] is Number
}

/// The patterns of arguments that are all numbers.
pub open spec fn patterns(args: Seq<Datum>) -> Seq<u64> {
    args.map_values(
        |d: Datum|
            match d {
                Datum::Number(bits) => bits,
                _ => ZERO,
            },
    )
}

/// What folding the host's operation over two or more numbers gives,
/// starting from `seed`: too few arguments fail, then anything that is not a
/// number does.
pub open spec fn folded(
    arith: spec_fn(ArithOp, u64, u64) -> u64,
    op: ArithOp,
    seed: u64,
    args: Seq<Datum>,
) -> Result<Datum, ArgumentError> {
    if args.len() < 2 {
        Err(ArgumentError::TooFew)
    } else if !all_numbers(args) {
        Err(ArgumentError::NotNumeric)
    } else {
        Ok(Datum::Number(fold(arith, op, seed, patterns(args))))
    }
}

/// The executable result is the expected one.
pub open spec fn gives(
    result: Result<Rc<Value>, ArgumentError>,
    expected: Result<Datum, ArgumentError>,
) -> bool {
    match result {
        Ok(value) => expected == Ok::<Datum, ArgumentError>(value@),
        Err(e) => expected == Err::<Datum, ArgumentError>(e),
    }
}

/// Folds the host's operation over two or more numbers.
fn fold_arguments<A: Fn(ArithOp, u64, u64) -> u64>(
    args: &Vec<Rc<Value>>,
    arith: &A,
    op: ArithOp,
    seed: u64,
) -> (result: Result<Rc<Value>, ArgumentError>)
    requires
        arith_ok(*arith),
    ensures
        gives(result, folded(arith_model(*arith), op, seed, views(args@))),
{
    if args.len() < 2 {
        return Err(ArgumentError::TooFew);
    }
    let mut result = seed;
    let mut i: usize = 0;
    while i < args.len()
        invariant
            2 <= args.len(),
            i <= args.len(),
            arith_ok(*arith),
            all_numbers(views(args@).take(i as int)),
            result == fold(arith_model(*arith), op, seed, patterns(views(args@).take(i as int))),
        decreases args.len() - i,
    {
        match &*args[i] {
            Value::Number(n) => {
                proof {
                    let before = views(args@).take(i as int);
                    let after = views(args@).take(i + 1);
                    assert(patterns(after) =~= patterns(before).push(*n));
                    fold_push(arith_model(*arith), op, seed, patterns(before), *n);
                }
                result = compute(arith, op, result, *n);
            },
            _ => {
                assert(!(views(args@)[i as int] is Number));
                return Err(ArgumentError::NotNumeric);
            },
        }
        i += 1;
    }
    assert(views(args@).take(i as int) =~= views(args@));
    Ok(Rc::new(Value::Number(result)))
}

/// Adds two or more numbers.
pub fn rust_add<A: Fn(ArithOp, u64, u64) -> u64>(args: Vec<Rc<Value>>, arith: &A) -> (result: Result<
    Rc<Value>,
    ArgumentError,
>)
    requires
        arith_ok(*arith),
    ensures
        gives(result, folded(arith_model(*arith), ArithOp::Add, ZERO, views(args@))),
{
    fold_arguments(&args, arith, ArithOp::Add, ZERO)
}

/// Multiplies two or more numbers.
pub fn rust_multiply<A: Fn(ArithOp, u64, u64) -> u64>(args: Vec<Rc<Value>>, arith: &A) -> (result:
    Result<Rc<Value>, ArgumentError>)
    requires
        arith_ok(*arith),
    ensures
        gives(result, folded(arith_model(*arith), ArithOp::Mul, ONE, views(args@))),
{
    fold_arguments(&args, arith, ArithOp::Mul, ONE)
}

/// The number that counting to `count` gives: one added to zero, `count`
/// times, by the host's arithmetic.
pub open spec fn counted(arith: spec_fn(ArithOp, u64, u64) -> u64, count: nat) -> u64 {
    fold(arith, ArithOp::Add, ZERO, Seq::new(count, |i: int| ONE))
}

/// What the length of a list is as a value: exactly one argument is asked
/// for, and its elements are counted.
pub open spec fn length_spec(arith: spec_fn(ArithOp, u64, u64) -> u64, args: Seq<Datum>) -> Result<
    Datum,
    ArgumentError,
> {
    if args.len() != 1 {
        Err(ArgumentError::NotOne)
    } else {
        Ok(Datum::Number(counted(arith, args[0].elements().len())))
    }
}

/// The length of a list, as a number.
pub fn rust_length<A: Fn(ArithOp, u64, u64) -> u64>(args: Vec<Rc<Value>>, arith: &A) -> (result:
    Result<Rc<Value>, ArgumentError>)
    requires
        arith_ok(*arith),
    ensures
        gives(result, length_spec(arith_model(*arith), views(args@))),
{
    if args.len() != 1 {
        return Err(ArgumentError::NotOne);
    }
    let mut count = ZERO;
    let mut current = share(&args[0]);
    let ghost mut seen: nat = 0;
    loop
        invariant
            arith_ok(*arith),
            args.len() == 1,
            count == counted(arith_model(*arith), seen),
            seen + current@.elements().len() == args[0]@.elements().len(),
        ensures
            count == counted(arith_model(*arith), args[0]@.elements().len()),
        decreases current@,
    {
        let next = match &*current {
            Value::Cons(_, cdr_val) => Some(share(cdr_val)),
            _ => None,
        };
        match next {
            Some(tail) => {
                proof {
                    assert(Seq::new(seen + 1, |i: int| ONE) =~= Seq::new(seen, |i: int| ONE).push(
                        ONE,
                    ));
                    fold_push(arith_model(*arith), ArithOp::Add, ZERO, Seq::new(seen, |i: int| ONE), ONE);
                    seen = seen + 1;
                }
                count = compute(arith, ArithOp::Add, count, ONE);
                current = tail;
            },
            None => {
                break ;
            },
        }
    }
    Ok(Rc::new(Value::Number(count)))
}

/// The upper-case form of a text.
pub uninterp spec fn uppercase(text: Seq<char>) -> Seq<char>;

/// `str::to_uppercase` gives the upper-case form of a text.
pub assume_specification[ str::to_uppercase ](text: &str) -> (upper: String)
    ensures
        upper@ == uppercase(text@),
;

/// What the upper-case form of a symbol is as a value: exactly one argument
/// is asked for, and it must be a symbol.
pub open spec fn uppercase_spec(args: Seq<Datum>) -> Result<Datum, ArgumentError> {
    if args.len() != 1 {
        Err(ArgumentError::NotOne)
    } else {
        match args[0] {
            Datum::Symbol(name) => Ok(Datum::Symbol(uppercase(name))),
            _ => Err(ArgumentError::NotSymbol),
        }
    }
}

/// The symbol whose name is the upper-case form of the name of a symbol.
pub fn rust_uppercase(args: Vec<Rc<Value>>) -> (result: Result<Rc<Value>, ArgumentError>)
    ensures
        gives(result, uppercase_spec(views(args@))),
{
    if args.len() != 1 {
        return Err(ArgumentError::NotOne);
    }
    match &*args[0] {
        Value::Symbol(s) => Ok(Rc::new(Value::Symbol(s.as_str().to_uppercase()))),
        _ => Err(ArgumentError::NotSymbol),
    }
}

} // verus!
