//! A minimal S-expression language core: data model, reader, printer,
//! environment-based evaluator and a bridge between the embedded language and
//! its host.
//!
//! Numbers are IEEE-754 doubles carried as their 64-bit patterns. The library
//! orders them and tells zero from the rest; it never computes on them. The
//! host lends it the arithmetic, the parser of numeric literals and the
//! formatter as callables, and every contract is stated over what those
//! callables return.
//!
//! Environments live in an [`Interpreter`] and are named by handles, so that
//! a closure and the environment that binds it can refer to each other.
//!
//! What evaluation means is written down in [`semantics`], as a function of
//! the expression, the environments and what the host's callables return.
//! [`theorems`] holds what follows from it.

pub mod environment;
pub mod eval;
pub mod interop;
pub mod interpreter;
pub mod number;
pub mod parser;
pub mod primitives;
pub mod printer;
pub mod rust_functions;
pub mod semantics;
pub mod table;
pub mod theorems;
pub mod types;

pub use environment::{setup_environment, Environment};
pub use eval::{bind_params, eval, eval_list};
pub use interop::{
    call_lisp_function, lisp_to_rust_bool, lisp_to_rust_number, lisp_to_rust_string,
    lisp_to_rust_vector, register_lisp_function, rust_to_lisp_bool, rust_to_lisp_list,
    rust_to_lisp_number, rust_to_lisp_symbol,
};
pub use interpreter::Interpreter;
pub use number::ArithOp;
pub use parser::{read, ReadError};
pub use printer::print_value;
pub use rust_functions::{
    register_rust_function, rust_add, rust_call, rust_length, rust_multiply, rust_uppercase,
    setup_rust_functions, ArgumentError, RustFunctionRegistry,
};
pub use types::{car, cdr, cons, Datum, EnvRef, Primitive, Value};
