//! The interpreter's state: the environments it owns, the host's callables,
//! and what an evaluation leaves behind besides its value.

use crate::environment::Environment;
use crate::number::{arith_model, arith_ok, ArithOp};
use crate::rust_functions::{native_gives, native_model, native_ok, views, RustFunctionRegistry};
use crate::types::{Datum, EnvRef, Value};
use std::rc::Rc;
use vstd::prelude::*;
use vstd::string::*;

verus! {

/// What an evaluation can change: the environments, how many of them
/// closures hold on to, the diagnostics written so far, and whether the depth
/// ceiling has been hit.
pub struct World {
    pub envs: Seq<Map<Seq<char>, Datum>>,
    /// Closures were made over environments before this place only.
    pub pinned: nat,
    pub diagnostics: Seq<Seq<char>>,
    pub exhausted: bool,
}

impl World {
    /// The bindings behind a handle. A handle that names no environment
    /// stands for the empty one.
    pub open spec fn bindings(self, env: EnvRef) -> Map<Seq<char>, Datum> {
        if env.index < self.envs.len() {
            self.envs[env.index as int]
        } else {
            Map::empty()
        }
    }

    /// What `name` evaluates to in `env`: its binding, or `Nil` without one.
    pub open spec fn lookup(self, env: EnvRef, name: Seq<char>) -> Datum {
        if self.bindings(env).contains_key(name) {
            self.bindings(env)[name]
        } else {
            Datum::Nil
        }
    }

    /// The world after `name` is bound to `value` in `env`.
    pub open spec fn define(self, env: EnvRef, name: Seq<char>, value: Datum) -> World {
        if env.index < self.envs.len() {
            World {
                envs: self.envs.update(
                    env.index as int,
                    self.envs[env.index as int].insert(name, value),
                ),
                ..self
            }
        } else {
            self
        }
    }

    /// The world after a new environment with the bindings `frame` is added.
    /// Its handle is [`World::next`] of the world before.
    pub open spec fn enter(self, frame: Map<Seq<char>, Datum>) -> World {
        World { envs: self.envs.push(frame), ..self }
    }

    /// Whether every environment can have a handle. The world of an
    /// interpreter always does.
    pub open spec fn fits(self) -> bool {
        self.envs.len() <= usize::MAX
    }

    /// Whether there are as many environments as there are handles, so that
    /// no further one can be had.
    pub open spec fn full(self) -> bool {
        self.envs.len() >= usize::MAX
    }

    /// The handle that the next new environment gets.
    pub open spec fn next(self) -> EnvRef {
        EnvRef { index: self.envs.len() as usize }
    }

    /// The world after a closure is made over `env`: the environment and all
    /// before it stay for good.
    pub open spec fn pin(self, env: EnvRef) -> World {
        if self.pinned <= env.index < self.envs.len() {
            World { pinned: (env.index + 1) as nat, ..self }
        } else {
            self
        }
    }

    /// The world after the call that `callee` was made for has returned. The
    /// environments made during the call, `callee` first, are discarded,
    /// unless a closure was made over one of them.
    pub open spec fn leave(self, callee: EnvRef) -> World {
        if self.pinned <= callee.index <= self.envs.len() {
            World { envs: self.envs.take(callee.index as int), ..self }
        } else {
            self
        }
    }

    /// The world after `message` is written to the diagnostics.
    pub open spec fn report(self, message: Seq<char>) -> World {
        World { diagnostics: self.diagnostics.push(message), ..self }
    }

    /// The world after the depth ceiling is hit.
    pub open spec fn exhaust(self) -> World {
        World { exhausted: true, ..self }
    }
}

/// What the host lends the interpreter, as mathematical functions: its
/// arithmetic on patterns, and the callables registered by name.
pub struct Host {
    pub arith: spec_fn(ArithOp, u64, u64) -> u64,
    pub natives: Map<Seq<char>, spec_fn(Seq<Datum>) -> Datum>,
}

impl Host {
    /// Whether a callable is registered under `name`.
    pub open spec fn knows(self, name: Seq<char>) -> bool {
        self.natives.contains_key(name)
    }

    /// What the callable registered under `name` gives for `args`.
    pub open spec fn call(self, name: Seq<char>, args: Seq<Datum>) -> Datum {
        (self.natives[name])(args)
    }
}

/// The diagnostic for a `rust-call` of a name that is not registered.
pub open spec fn rust_function_not_found(name: Seq<char>) -> Seq<char> {
    "Rust function '"@ + name + "' not found"@
}

/// The diagnostic for a `rust-call` whose first operand is no symbol.
pub open spec fn expected_function_name() -> Seq<char> {
    "Expected function name as first argument"@
}

/// The diagnostic for a host-initiated call of a name without a binding.
pub open spec fn function_not_found(name: Seq<char>) -> Seq<char> {
    "Function '"@ + name + "' not found in environment"@
}

/// An interpreter: the owner of every environment, of the registry of host
/// callables and of the host's arithmetic.
pub struct Interpreter<A, H> {
    envs: Vec<Environment>,
    registry: RustFunctionRegistry<H>,
    arith: A,
    pinned: usize,
    diagnostics: Vec<String>,
    depth_limit: usize,
    exhausted: bool,
}

impl<A: Fn(ArithOp, u64, u64) -> u64, H: Fn(Vec<Rc<Value>>) -> Rc<Value>> Interpreter<A, H> {
    /// The state that evaluation reads and changes.
    pub closed spec fn world(&self) -> World {
        World {
            envs: self.envs@.map_values(|e: Environment| e@),
            pinned: self.pinned as nat,
            diagnostics: self.diagnostics@.map_values(|m: String| m@),
            exhausted: self.exhausted,
        }
    }

    /// The host's callables.
    pub closed spec fn host(&self) -> Host {
        Host {
            arith: arith_model(self.arith),
            natives: self.registry.view().map_values(|f: H| native_model(f)),
        }
    }

    /// How deeply closure calls may nest.
    pub closed spec fn depth_limit(&self) -> nat {
        self.depth_limit as nat
    }

    /// The host's callables are total and are functions.
    pub closed spec fn wf(&self) -> bool {
        &&& arith_ok(self.arith)
        &&& self.registry.wf()
    }

    /// This interpreter is `before` but for its world: the host's callables
    /// and the depth limit are the same.
    pub open spec fn continues(self, before: Self) -> bool {
        &&& self.host() == before.host()
        &&& self.depth_limit() == before.depth_limit()
        &&& self.wf() == before.wf()
    }

    /// An interpreter without environments, registrations or diagnostics.
    /// Closure calls may nest `depth_limit` deep.
    pub fn new(arith: A, depth_limit: usize) -> (interp: Self)
        requires
            arith_ok(arith),
        ensures
            interp.wf(),
            interp.world() == (World {
                envs: Seq::empty(),
                pinned: 0,
                diagnostics: Seq::empty(),
                exhausted: false,
            }),
            interp.host() == (Host { arith: arith_model(arith), natives: Map::empty() }),
            interp.depth_limit() == depth_limit,
    {
        let interp = Interpreter {
            envs: Vec::new(),
            registry: RustFunctionRegistry::new(),
            arith,
            pinned: 0,
            diagnostics: Vec::new(),
            depth_limit,
            exhausted: false,
        };
        assert(interp.world().envs =~= Seq::empty());
        assert(interp.world().diagnostics =~= Seq::empty());
        assert(interp.host().natives =~= Map::empty());
        interp
    }

    /// Every environment of an interpreter has a handle.
    pub proof fn world_fits(&self)
        ensures
            self.world().fits(),
    {
        vstd::std_specs::vec::axiom_spec_len(&self.envs);
    }

    /// The depth to which closure calls may nest.
    pub fn limit(&self) -> (limit: usize)
        ensures
            limit == self.depth_limit(),
    {
        self.depth_limit
    }

    /// Sets the depth to which closure calls may nest.
    pub fn set_limit(&mut self, depth_limit: usize)
        ensures
            final(self).depth_limit() == depth_limit,
            final(self).world() == old(self).world(),
            final(self).host() == old(self).host(),
            final(self).wf() == old(self).wf(),
    {
        self.depth_limit = depth_limit;
    }

    /// Whether an evaluation has hit the depth ceiling since the flag was
    /// last cleared.
    pub fn exhausted(&self) -> (hit: bool)
        ensures
            hit == self.world().exhausted,
    {
        self.exhausted
    }

    /// Clears the flag that the depth ceiling sets, so that closures are
    /// entered again.
    pub fn recover(&mut self)
        ensures
            final(self).world() == (World { exhausted: false, ..old(self).world() }),
            final(self).continues(*old(self)),
    {
        self.exhausted = false;
    }

    /// Records that the depth ceiling was hit.
    pub fn exhaust(&mut self)
        ensures
            final(self).world() == old(self).world().exhaust(),
            final(self).continues(*old(self)),
    {
        self.exhausted = true;
    }

    /// The diagnostics written so far, oldest first.
    pub fn diagnostics(&self) -> (log: &Vec<String>)
        ensures
            log@.map_values(|m: String| m@) == self.world().diagnostics,
    {
        &self.diagnostics
    }

    /// Appends `message` to the diagnostics.
    pub fn report(&mut self, message: String)
        ensures
            final(self).world() == old(self).world().report(message@),
            final(self).continues(*old(self)),
    {
        self.diagnostics.push(message);
        assert(self.world().diagnostics =~= old(self).world().diagnostics.push(message@));
    }

    /// Adds an environment and gives its handle.
    pub fn adopt(&mut self, env: Environment) -> (handle: EnvRef)
        ensures
            handle == old(self).world().next(),
            final(self).world() == old(self).world().enter(env@),
            final(self).continues(*old(self)),
    {
        let handle = EnvRef { index: self.envs.len() };
        self.envs.push(env);
        assert(self.world().envs =~= old(self).world().envs.push(env@));
        handle
    }

    /// Records that a closure is made over `env`, so that the environment
    /// outlives the call it was made for.
    pub fn pin(&mut self, env: EnvRef)
        ensures
            final(self).world() == old(self).world().pin(env),
            final(self).continues(*old(self)),
    {
        if self.pinned <= env.index && env.index < self.envs.len() {
            self.pinned = env.index + 1;
        }
    }

    /// Discards the environments made during the call that `callee` was made
    /// for, unless a closure was made over one of them.
    pub fn leave(&mut self, callee: EnvRef)
        ensures
            final(self).world() == old(self).world().leave(callee),
            final(self).continues(*old(self)),
    {
        if self.pinned <= callee.index && callee.index <= self.envs.len() {
            self.envs.truncate(callee.index);
            assert(self.world().envs =~= old(self).world().envs.take(callee.index as int));
        }
    }

    /// The number of environments.
    pub fn environments(&self) -> (count: usize)
        ensures
            count == self.world().envs.len(),
    {
        self.envs.len()
    }

    /// The environment behind a handle, if the handle names one.
    pub fn environment(&self, env: EnvRef) -> (found: Option<&Environment>)
        ensures
            match found {
                Some(e) => env.index < self.world().envs.len() && e@ == self.world().bindings(env),
                None => env.index >= self.world().envs.len(),
            },
    {
        if env.index < self.envs.len() {
            Some(&self.envs[env.index])
        } else {
            None
        }
    }

    /// What `name` evaluates to in `env`: its binding, or `Nil` without one.
    pub fn lookup(&self, env: EnvRef, name: &str) -> (value: Rc<Value>)
        ensures
            value@ == self.world().lookup(env, name@),
    {
        if env.index < self.envs.len() {
            match self.envs[env.index].get(name) {
                Some(v) => v,
                None => Rc::new(Value::Nil),
            }
        } else {
            Rc::new(Value::Nil)
        }
    }

    /// Whether `name` has a binding in `env`.
    pub fn is_bound(&self, env: EnvRef, name: &str) -> (bound: bool)
        ensures
            bound == self.world().bindings(env).contains_key(name@),
    {
        if env.index < self.envs.len() {
            self.envs[env.index].get(name).is_some()
        } else {
            false
        }
    }

    /// Binds `name` to `value` in `env`. A handle that names no environment
    /// leaves everything as it is.
    pub fn define(&mut self, env: EnvRef, name: String, value: Rc<Value>)
        ensures
            final(self).world() == old(self).world().define(env, name@, value@),
            final(self).continues(*old(self)),
    {
        if env.index < self.envs.len() {
            self.envs[env.index].insert(name, value);
            assert(self.world().envs =~= old(self).world().define(env, name@, value@).envs);
        }
    }

    /// The host's arithmetic.
    pub fn arithmetic(&self) -> (arith: &A)
        requires
            self.wf(),
        ensures
            arith_model(*arith) == self.host().arith,
            arith_ok(*arith),
    {
        &self.arith
    }

    /// Registers a host callable under `name`, replacing an earlier one.
    pub fn register(&mut self, name: &str, func: H)
        requires
            old(self).wf(),
            native_ok(func),
        ensures
            final(self).wf(),
            final(self).world() == old(self).world(),
            final(self).depth_limit() == old(self).depth_limit(),
            final(self).host() == (Host {
                natives: old(self).host().natives.insert(name@, native_model(func)),
                ..old(self).host()
            }),
    {
        self.registry.register(name, func);
        assert(self.host().natives =~= old(self).host().natives.insert(name@, native_model(func)));
    }

    /// Calls the host callable registered under `name`, if there is one.
    pub fn call_native(&self, name: &str, args: Vec<Rc<Value>>) -> (result: Option<Rc<Value>>)
        requires
            self.wf(),
        ensures
            match result {
                Some(v) => self.host().knows(name@) && v@ == self.host().call(name@, views(args@)),
                None => !self.host().knows(name@),
            },
    {
        match self.registry.get(name) {
            Some(f) => {
                let value = f(args);
                assert(native_gives(*f, views(args@), value@));
                Some(value)
            },
            None => None,
        }
    }
}

} // verus!
