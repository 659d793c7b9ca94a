//! The printer: a value as text.

use crate::types::{model, Datum, Value};
use std::rc::Rc;
use vstd::prelude::*;
use vstd::string::*;

verus! {

/// The host's formatter accepts every pattern.
pub open spec fn format_total<F: Fn(u64) -> String>(format: F) -> bool {
    forall|bits: u64| call_requires(format, (bits,))
}

/// Some call of the host's formatter on `bits` gives `text`.
pub open spec fn format_gives<F: Fn(u64) -> String>(format: F, bits: u64, text: Seq<char>) -> bool {
    exists|t: String| #[trigger] call_ensures(format, (bits,), t) && t@ == text
}

/// The text that the host's formatter gives for a number.
pub open spec fn format_result<F: Fn(u64) -> String>(format: F, bits: u64) -> Seq<char> {
    choose|text: Seq<char>| format_gives(format, bits, text)
}

/// The host's formatter as a mathematical function.
pub open spec fn format_model<F: Fn(u64) -> String>(format: F) -> spec_fn(u64) -> Seq<char> {
    |bits: u64| format_result(format, bits)
}

/// The host's formatter is a function of the pattern: two calls on the same
/// pattern give the same characters.
pub open spec fn format_functional<F: Fn(u64) -> String>(format: F) -> bool {
    forall|bits: u64, first: String, second: String|
        #![trigger call_ensures(format, (bits,), first), call_ensures(format, (bits,), second)]
        call_ensures(format, (bits,), first) && call_ensures(format, (bits,), second) ==> first@
            == second@
}

/// The host's formatter is total and a function.
pub open spec fn format_ok<F: Fn(u64) -> String>(format: F) -> bool {
    format_total(format) && format_functional(format)
}

/// Asks the host for the text of a number.
pub fn format_number<F: Fn(u64) -> String>(format: &F, bits: u64) -> (text: String)
    requires
        format_ok(*format),
    ensures
        text@ == format_model(*format)(bits),
        call_ensures(*format, (bits,), text),
{
    let text = format(bits);
    assert(format_gives(*format, bits, text@));
    text
}

/// The text of a value. A chain of pairs is a parenthesized list of its
/// elements; a last tail that is neither `Nil` nor a pair follows a dot.
pub open spec fn print_spec(format: spec_fn(u64) -> Seq<char>, value: Datum) -> Seq<char>
    decreases value, 0nat,
{
    match value {
        Datum::Nil => "()"@,
        Datum::Bool(b) => if b {
            "#t"@
        } else {
            "#f"@
        },
        Datum::Number(bits) => format(bits),
        Datum::Symbol(name) => name,
        Datum::Native(name, _) => "<procedure:"@ + name + ">"@,
        Datum::Closure(_, _, _) => "<lambda>"@,
        Datum::Pair(head, tail) => "("@ + print_spec(format, *head) + print_rest(format, *tail)
            + ")"@,
    }
}

/// The text of what follows an element inside a list: nothing for `Nil`, a
/// space and the further elements for a pair, a dot and the value for
/// anything else.
pub open spec fn print_rest(format: spec_fn(u64) -> Seq<char>, tail: Datum) -> Seq<char>
    decreases tail, 1nat,
{
    match tail {
        Datum::Nil => Seq::empty(),
        Datum::Pair(head, rest) => " "@ + print_spec(format, *head) + print_rest(format, *rest),
        _ => " . "@ + print_spec(format, tail),
    }
}

/// Appends the text of `value` to `out`.
fn write_value<F: Fn(u64) -> String>(value: &Rc<Value>, format: &F, out: &mut String)
    requires
        format_ok(*format),
    ensures
        final(out)@ == old(out)@ + print_spec(format_model(*format), value@),
    decreases **value, 0nat,
{
    proof {
        reveal_with_fuel(model, 2);
    }
    match &**value {
        Value::Nil => {
            out.append("()");
        },
        Value::Bool(true) => {
            out.append("#t");
        },
        Value::Bool(false) => {
            out.append("#f");
        },
        Value::Number(n) => {
            let text = format_number(format, *n);
            out.append(text.as_str());
        },
        Value::Symbol(s) => {
            out.append(s.as_str());
        },
        Value::Procedure(name, _) => {
            out.append("<procedure:");
            out.append(name.as_str());
            out.append(">");
        },
        Value::Lambda(_, _, _) => {
            out.append("<lambda>");
        },
        Value::Cons(car, cdr) => {
            out.append("(");
            write_value(car, format, out);
            write_rest(cdr, format, out);
            out.append(")");
            assert(out@ =~= old(out)@ + ("("@ + print_spec(format_model(*format), car@) + print_rest(
                format_model(*format),
                cdr@,
            ) + ")"@));
        },
    }
}

/// Appends the text of what follows an element inside a list.
fn write_rest<F: Fn(u64) -> String>(tail: &Rc<Value>, format: &F, out: &mut String)
    requires
        format_ok(*format),
    ensures
        final(out)@ == old(out)@ + print_rest(format_model(*format), tail@),
    decreases **tail, 1nat,
{
    proof {
        reveal_with_fuel(model, 2);
    }
    match &**tail {
        Value::Nil => {
        },
        Value::Cons(car, cdr) => {
            out.append(" ");
            write_value(car, format, out);
            write_rest(cdr, format, out);
            assert(out@ =~= old(out)@ + (" "@ + print_spec(format_model(*format), car@) + print_rest(
                format_model(*format),
                cdr@,
            )));
        },
        _ => {
            out.append(" . ");
            write_value(tail, format, out);
        },
    }
}

/// The text of `value`. `format` is the host's formatter of numbers.
pub fn print_value<F: Fn(u64) -> String>(value: &Rc<Value>, format: &F) -> (text: String)
    requires
        format_ok(*format),
    ensures
        text@ == print_spec(format_model(*format), value@),
{
    let mut text = String::new();
    write_value(value, format, &mut text);
    text
}

} // verus!
