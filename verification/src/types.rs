//! The value representation, its mathematical model, and the pair primitives.

use std::rc::Rc;
use vstd::prelude::*;

verus! {

/// The built-in forms. Each receives its operand list unevaluated, together
/// with the environment of the call, and evaluates what it needs itself.
#[derive(Clone, Copy, Debug, PartialEq, Eq, Structural)]
pub enum Primitive {
    Quote,
    Define,
    Lambda,
    Add,
    Sub,
    Mul,
    Div,
    NumEq,
    Less,
    Greater,
    RustCall,
}

/// A handle to an environment owned by an interpreter. Holders of equal
/// handles observe the same bindings.
#[derive(Clone, Copy, Debug, PartialEq, Eq, Structural)]
pub struct EnvRef {
    pub index: usize,
}

/// A value of the embedded language. Values are immutable once built and are
/// shared by reference counting.
#[derive(Debug)]
pub enum Value {
    /// The empty list; also what every silently failed operation yields.
    Nil,
    Bool(bool),
    /// A double, held as its IEEE-754 bit pattern.
    Number(u64),
    Symbol(String),
    /// A pair of head and tail.
    Cons(Rc<Value>, Rc<Value>),
    /// A built-in form under the name it was installed with.
    Procedure(String, Primitive),
    /// Parameter specification, body, and the captured environment.
    Lambda(Rc<Value>, Rc<Value>, EnvRef),
}

/// The mathematical model of a [`Value`]: the same tree with texts as
/// sequences of characters.
pub enum Datum {
    Nil,
    Bool(bool),
    Number(u64),
    Symbol(Seq<char>),
    Pair(Box<Datum>, Box<Datum>),
    Native(Seq<char>, Primitive),
    Closure(Box<Datum>, Box<Datum>, EnvRef),
}

/// The model of a value.
pub open spec fn model(value: Value) -> Datum
    decreases value,
{
    match value {
        Value::Nil => Datum::Nil,
        Value::Bool(b) => Datum::Bool(b),
        Value::Number(n) => Datum::Number(n),
        Value::Symbol(s) => Datum::Symbol(s@),
        Value::Cons(a, b) => Datum::Pair(Box::new(model(*a)), Box::new(model(*b))),
        Value::Procedure(name, p) => Datum::Native(name@, p),
        Value::Lambda(params, body, env) => Datum::Closure(
            Box::new(model(*params)),
            Box::new(model(*body)),
            env,
        ),
    }
}

impl View for Value {
    type V = Datum;

    open spec fn view(&self) -> Datum {
        model(*self)
    }
}

impl Datum {
    /// The head of a pair; `Nil` for anything else.
    pub open spec fn head(self) -> Datum {
        match self {
            Datum::Pair(h, _) => *h,
            _ => Datum::Nil,
        }
    }

    /// The tail of a pair; `Nil` for anything else.
    pub open spec fn tail(self) -> Datum {
        match self {
            Datum::Pair(_, t) => *t,
            _ => Datum::Nil,
        }
    }

    /// The heads met while walking pairs until a tail is not a pair.
    pub open spec fn elements(self) -> Seq<Datum>
        decreases self,
    {
        match self {
            Datum::Pair(h, t) => seq![*h] + t.elements(),
            _ => Seq::empty(),
        }
    }

    /// The `Nil`-terminated chain of pairs that holds `items` in order.
    pub open spec fn list(items: Seq<Datum>) -> Datum
        decreases items.len(),
    {
        if items.len() == 0 {
            Datum::Nil
        } else {
            Datum::Pair(Box::new(items[0]), Box::new(Datum::list(items.drop_first())))
        }
    }
}

/// `Rc::clone`: the new handle points at the same value.
#[verifier::external_body]
pub(crate) fn share(v: &Rc<Value>) -> (r: Rc<Value>)
    ensures
        r == *v,
{
    v.clone()
}

/// Builds a pair.
pub fn cons(car: Rc<Value>, cdr: Rc<Value>) -> (r: Rc<Value>)
    ensures
        r@ == Datum::Pair(Box::new(car@), Box::new(cdr@)),
{
    Rc::new(Value::Cons(car, cdr))
}

/// The head of a pair. Total: anything that is not a pair has head `Nil`.
pub fn car(pair: &Rc<Value>) -> (r: Rc<Value>)
    ensures
        r@ == pair@.head(),
{
    match &**pair {
        Value::Cons(car, _) => share(car),
        _ => Rc::new(Value::Nil),
    }
}

/// The tail of a pair. Total: anything that is not a pair has tail `Nil`.
pub fn cdr(pair: &Rc<Value>) -> (r: Rc<Value>)
    ensures
        r@ == pair@.tail(),
{
    match &**pair {
        Value::Cons(_, cdr) => share(cdr),
        _ => Rc::new(Value::Nil),
    }
}

} // verus!
