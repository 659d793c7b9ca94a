//! Environments: mutable mappings from names to values, and the global
//! environment that holds the built-in forms.

use crate::interpreter::Interpreter;
use crate::number::ArithOp;
use crate::table::{bound, bound_push, Table};
use crate::types::{share, Datum, EnvRef, Primitive, Value};
use std::rc::Rc;
use vstd::prelude::*;

verus! {

/// The models of the values that a table binds.
pub open spec fn modelled(bindings: Map<Seq<char>, Rc<Value>>) -> Map<Seq<char>, Datum> {
    bindings.map_values(|v: Rc<Value>| v@)
}

/// A mutable mapping from names to values.
pub struct Environment {
    table: Table<Rc<Value>>,
}

impl View for Environment {
    type V = Map<Seq<char>, Datum>;

    closed spec fn view(&self) -> Map<Seq<char>, Datum> {
        modelled(self.table@)
    }
}

impl Environment {
    /// An environment without bindings.
    pub fn new() -> (env: Environment)
        ensures
            env@ == Map::<Seq<char>, Datum>::empty(),
    {
        let env = Environment { table: Table::new() };
        env
    }

    /// The value bound to `name`, if any.
    pub fn get(&self, name: &str) -> (found: Option<Rc<Value>>)
        ensures
            match found {
                Some(v) => self@.contains_key(name@) && self@[name@] == v@,
                None => !self@.contains_key(name@),
            },
    {
        match self.table.find(name) {
            Some(v) => Some(share(v)),
            None => None,
        }
    }

    /// Binds `name` to `value`, replacing what it was bound to before.
    pub fn insert(&mut self, name: String, value: Rc<Value>)
        ensures
            final(self)@ == old(self)@.insert(name@, value@),
    {
        self.table.insert(name, value);
    }

    /// Copies every binding of `outer` into this environment. A binding of
    /// `outer` replaces one that is here under the same name.
    pub fn copy_from(&mut self, outer: &Environment)
        ensures
            final(self)@ == old(self)@.union_prefer_right(outer@),
    {
        let n = outer.table.len();
        let mut i: usize = 0;
        assert(self@ =~= old(self)@.union_prefer_right(
            modelled(bound(outer.table.entries().take(0))),
        ));
        while i < n
            invariant
                i <= n,
                n == outer.table.entries().len(),
                self@ == old(self)@.union_prefer_right(
                    modelled(bound(outer.table.entries().take(i as int))),
                ),
            decreases n - i,
        {
            let name = outer.table.name_at(i).clone();
            let value = share(outer.table.value_at(i));
            proof {
                let e = outer.table.entries();
                assert(e.take(i + 1) =~= e.take(i as int).push(e[i as int]));
                bound_push(e.take(i as int), e[i as int].0, e[i as int].1);
                assert(old(self)@.union_prefer_right(modelled(bound(e.take(i + 1))))
                    =~= old(self)@.union_prefer_right(modelled(bound(e.take(i as int)))).insert(
                    name@,
                    value@,
                ));
            }
            self.insert(name, value);
            i += 1;
        }
        assert(outer.table.entries().take(n as int) =~= outer.table.entries());
    }

    /// Copies every binding of `outer` into this environment but the one
    /// under `skip`.
    pub fn copy_from_except(&mut self, outer: &Environment, skip: &str)
        ensures
            final(self)@ == old(self)@.union_prefer_right(outer@.remove(skip@)),
    {
        let skipped = skip.to_owned();
        let n = outer.table.len();
        let mut i: usize = 0;
        assert(self@ =~= old(self)@.union_prefer_right(
            modelled(bound(outer.table.entries().take(0))).remove(skip@),
        ));
        while i < n
            invariant
                i <= n,
                n == outer.table.entries().len(),
                skipped@ == skip@,
                self@ == old(self)@.union_prefer_right(
                    modelled(bound(outer.table.entries().take(i as int))).remove(skip@),
                ),
            decreases n - i,
        {
            proof {
                let e = outer.table.entries();
                assert(e.take(i + 1) =~= e.take(i as int).push(e[i as int]));
                bound_push(e.take(i as int), e[i as int].0, e[i as int].1);
            }
            if *outer.table.name_at(i) != skipped {
                let name = outer.table.name_at(i).clone();
                let value = share(outer.table.value_at(i));
                proof {
                    let e = outer.table.entries();
                    assert(old(self)@.union_prefer_right(
                        modelled(bound(e.take(i + 1))).remove(skip@),
                    ) =~= old(self)@.union_prefer_right(
                        modelled(bound(e.take(i as int))).remove(skip@),
                    ).insert(name@, value@));
                }
                self.insert(name, value);
            } else {
                proof {
                    let e = outer.table.entries();
                    assert(modelled(bound(e.take(i + 1))).remove(skip@) =~= modelled(
                        bound(e.take(i as int)),
                    ).remove(skip@));
                }
            }
            i += 1;
        }
        assert(outer.table.entries().take(n as int) =~= outer.table.entries());
    }
}

/// The bindings with a built-in form added under `name`.
pub open spec fn with_form(
    bindings: Map<Seq<char>, Datum>,
    name: Seq<char>,
    form: Primitive,
) -> Map<Seq<char>, Datum> {
    bindings.insert(name, Datum::Native(name, form))
}

/// The bindings of a fresh global environment: `nil`, `#t`, and each of the
/// built-in forms but the bridge to the host.
pub open spec fn global_bindings() -> Map<Seq<char>, Datum> {
    let constants = Map::<Seq<char>, Datum>::empty().insert("nil"@, Datum::Nil).insert(
        "#t"@,
        Datum::Bool(true),
    );
    let special = with_form(
        with_form(
            with_form(with_form(constants, "quote"@, Primitive::Quote), "+"@, Primitive::Add),
            "define"@,
            Primitive::Define,
        ),
        "lambda"@,
        Primitive::Lambda,
    );
    let arithmetic = with_form(
        with_form(with_form(special, "-"@, Primitive::Sub), "*"@, Primitive::Mul),
        "/"@,
        Primitive::Div,
    );
    with_form(
        with_form(with_form(arithmetic, "="@, Primitive::NumEq), "<"@, Primitive::Less),
        ">"@,
        Primitive::Greater,
    )
}

/// Binds `name` to the built-in form `form`.
pub fn install(env: &mut Environment, name: &str, form: Primitive)
    ensures
        final(env)@ == with_form(old(env)@, name@, form),
{
    env.insert(name.to_owned(), Rc::new(Value::Procedure(name.to_owned(), form)));
}

/// Creates the global environment in `interp` and gives its handle.
pub fn setup_environment<A: Fn(ArithOp, u64, u64) -> u64, H: Fn(Vec<Rc<Value>>) -> Rc<Value>>(
    interp: &mut Interpreter<A, H>,
) -> (env: EnvRef)
    ensures
        env == old(interp).world().next(),
        final(interp).world() == old(interp).world().enter(global_bindings()),
        final(interp).continues(*old(interp)),
{
    let mut env = Environment::new();
    env.insert("nil".to_owned(), Rc::new(Value::Nil));
    env.insert("#t".to_owned(), Rc::new(Value::Bool(true)));
    install(&mut env, "quote", Primitive::Quote);
    install(&mut env, "+", Primitive::Add);
    install(&mut env, "define", Primitive::Define);
    install(&mut env, "lambda", Primitive::Lambda);
    install(&mut env, "-", Primitive::Sub);
    install(&mut env, "*", Primitive::Mul);
    install(&mut env, "/", Primitive::Div);
    install(&mut env, "=", Primitive::NumEq);
    install(&mut env, "<", Primitive::Less);
    install(&mut env, ">", Primitive::Greater);
    interp.adopt(env)
}

} // verus!
