//! The reader: one expression from the front of a text.

use crate::types::{cons, Datum, Value};
use std::rc::Rc;
use vstd::prelude::*;
use vstd::std_specs::iter::IteratorSpec;
use vstd::string::*;

verus! {

/// Why the reader gave no expression.
#[derive(Clone, Copy, Debug, PartialEq, Eq, Structural)]
pub enum ReadError {
    /// The text ended where an expression was expected.
    UnexpectedEnd,
    /// The text ended inside a list.
    UnterminatedList,
    /// A closing parenthesis stood where an expression was expected.
    ExpectedAtom,
}

/// Whether a character has the Unicode property White_Space.
pub uninterp spec fn white_space(c: char) -> bool;

/// `char::is_whitespace` tells whether the character has the Unicode
/// property White_Space.
pub assume_specification[ char::is_whitespace ](c: char) -> (r: bool)
    ensures
        r == white_space(c),
;

/// `String::push` appends one character.
#[verifier::external_body]
fn push_char(text: &mut String, c: char)
    ensures
        final(text)@ == old(text)@.push(c),
{
    text.push(c)
}

/// The characters of a text.
fn chars_of(input: &str) -> (chars: Vec<char>)
    ensures
        chars@ == input@,
{
    broadcast use vstd::string::group_string_axioms;

    let mut it = input.chars();
    let mut chars: Vec<char> = Vec::new();
    loop
        invariant
            it.decrease() is Some,
            chars@ + it.remaining() == input@,
        ensures
            chars@ == input@,
        decreases it.decrease()->0,
    {
        match it.next() {
            Some(c) => {
                chars.push(c);
            },
            None => {
                break ;
            },
        }
    }
    chars
}

/// The host's literal parser accepts every text.
pub open spec fn number_total<P: Fn(&str) -> Option<u64>>(parse: P) -> bool {
    forall|text: &str| call_requires(parse, (text,))
}

/// Some call of the host's literal parser on `text` gives `result`.
pub open spec fn number_gives<P: Fn(&str) -> Option<u64>>(
    parse: P,
    text: Seq<char>,
    result: Option<u64>,
) -> bool {
    exists|t: &str| t@ == text && #[trigger] call_ensures(parse, (t,), result)
}

/// What the host's literal parser makes of `text`: the pattern of the
/// number it denotes, or nothing when it is no numeric literal.
pub open spec fn number_result<P: Fn(&str) -> Option<u64>>(parse: P, text: Seq<char>) -> Option<
    u64,
> {
    choose|r: Option<u64>| number_gives(parse, text, r)
}

/// The host's literal parser as a mathematical function.
pub open spec fn number_model<P: Fn(&str) -> Option<u64>>(parse: P) -> spec_fn(Seq<char>) -> Option<
    u64,
> {
    |text: Seq<char>| number_result(parse, text)
}

/// The host's literal parser is a function of the text: two calls on the
/// same characters give the same result.
pub open spec fn number_functional<P: Fn(&str) -> Option<u64>>(parse: P) -> bool {
    forall|one: &str, other: &str, first: Option<u64>, second: Option<u64>|
        #![trigger call_ensures(parse, (one,), first), call_ensures(parse, (other,), second)]
        one@ == other@ && call_ensures(parse, (one,), first) && call_ensures(
            parse,
            (other,),
            second,
        ) ==> first == second
}

/// The host's literal parser is total and a function.
pub open spec fn number_ok<P: Fn(&str) -> Option<u64>>(parse: P) -> bool {
    number_total(parse) && number_functional(parse)
}

/// Asks the host what `text` is as a numeric literal.
pub fn parse_number<P: Fn(&str) -> Option<u64>>(parse: &P, text: &str) -> (r: Option<u64>)
    requires
        number_ok(*parse),
    ensures
        r == number_model(*parse)(text@),
        call_ensures(*parse, (text,), r),
{
    let r = parse(text);
    assert(number_gives(*parse, text@, r));
    r
}

impl ReadError {
    /// The text that describes the failure.
    pub open spec fn text(self) -> Seq<char> {
        match self {
            ReadError::UnexpectedEnd => "Unexpected end of input"@,
            ReadError::UnterminatedList => "Expected ')' but got end of input"@,
            ReadError::ExpectedAtom => "Expected atom but got nothing"@,
        }
    }

    /// The text that describes the failure.
    pub fn message(&self) -> (message: String)
        ensures
            message@ == self.text(),
    {
        match self {
            ReadError::UnexpectedEnd => "Unexpected end of input".to_owned(),
            ReadError::UnterminatedList => "Expected ')' but got end of input".to_owned(),
            ReadError::ExpectedAtom => "Expected atom but got nothing".to_owned(),
        }
    }
}

/// How many white-space characters stand at `pos` in a row.
pub open spec fn blanks(s: Seq<char>, pos: int) -> nat
    decreases s.len() - pos,
{
    if 0 <= pos < s.len() && white_space(s[pos]) {
        1 + blanks(s, pos + 1)
    } else {
        0
    }
}

/// Whether a character ends an atom.
pub open spec fn delimiter(c: char) -> bool {
    white_space(c) || c == '(' || c == ')'
}

/// How many characters at `pos` in a row end no atom: the length of the
/// atom that starts there.
pub open spec fn atom_len(s: Seq<char>, pos: int) -> nat
    decreases s.len() - pos,
{
    if 0 <= pos < s.len() && !delimiter(s[pos]) {
        1 + atom_len(s, pos + 1)
    } else {
        0
    }
}

/// `(quote expr)`, which `'expr` abbreviates.
pub open spec fn quoted(expr: Datum) -> Datum {
    Datum::Pair(
        Box::new(Datum::Symbol("quote"@)),
        Box::new(Datum::Pair(Box::new(expr), Box::new(Datum::Nil))),
    )
}

/// The atom that starts at `pos`, and the position behind it. An atom that
/// the host takes for a numeric literal is a number, any other a symbol.
pub open spec fn read_atom_spec(
    number: spec_fn(Seq<char>) -> Option<u64>,
    s: Seq<char>,
    pos: int,
) -> Result<(Datum, int), ReadError> {
    let end = pos + atom_len(s, pos);
    let text = s.subrange(pos, end);
    if end == pos {
        Err(ReadError::ExpectedAtom)
    } else {
        Ok(
            (
                match number(text) {
                    Some(bits) => Datum::Number(bits),
                    None => Datum::Symbol(text),
                },
                end,
            ),
        )
    }
}

/// The expression that starts at or after `pos`, white space skipped, and
/// the position behind it.
pub open spec fn read_expr_spec(
    number: spec_fn(Seq<char>) -> Option<u64>,
    s: Seq<char>,
    pos: int,
) -> Result<(Datum, int), ReadError>
    decreases s.len() - pos, 0nat,
{
    let start = pos + blanks(s, pos);
    if start >= s.len() {
        Err(ReadError::UnexpectedEnd)
    } else if s[start] == '(' {
        read_list_spec(number, s, start + 1)
    } else if s[start] == '\'' {
        match read_expr_spec(number, s, start + 1) {
            Ok((expr, end)) => Ok((quoted(expr), end)),
            Err(e) => Err(e),
        }
    } else {
        read_atom_spec(number, s, start)
    }
}

/// The rest of a list whose opening parenthesis and first elements stand
/// before `pos`, and the position behind its closing parenthesis.
pub open spec fn read_list_spec(
    number: spec_fn(Seq<char>) -> Option<u64>,
    s: Seq<char>,
    pos: int,
) -> Result<(Datum, int), ReadError>
    decreases s.len() - pos, 1nat,
{
    let start = pos + blanks(s, pos);
    if start >= s.len() {
        Err(ReadError::UnterminatedList)
    } else if s[start] == ')' {
        Ok((Datum::Nil, start + 1))
    } else {
        match read_expr_spec(number, s, start) {
            Ok((head, next)) => if start < next <= s.len() {
                match read_list_spec(number, s, next) {
                    Ok((tail, end)) => Ok((Datum::Pair(Box::new(head), Box::new(tail)), end)),
                    Err(e) => Err(e),
                }
            } else {
                Err(ReadError::UnterminatedList)
            },
            Err(e) => Err(e),
        }
    }
}

/// The first expression of a text. What follows it is not looked at.
pub open spec fn read_spec(number: spec_fn(Seq<char>) -> Option<u64>, s: Seq<char>) -> Result<
    Datum,
    ReadError,
> {
    match read_expr_spec(number, s, 0) {
        Ok((expr, _)) => Ok(expr),
        Err(e) => Err(e),
    }
}

/// The reader, started at `from`, gave what the grammar says: the same
/// failure, or a value with the expected model and the expected position
/// behind it, which lies behind `from` and within the text.
pub open spec fn reads(
    result: Result<(Rc<Value>, usize), ReadError>,
    expected: Result<(Datum, int), ReadError>,
    from: int,
    len: int,
) -> bool {
    match result {
        Ok((value, end)) => expected == Ok::<(Datum, int), ReadError>((value@, end as int)) && from
            < end <= len,
        Err(e) => expected == Err::<(Datum, int), ReadError>(e),
    }
}

/// Skips white space.
fn skip_whitespace(chars: &Vec<char>, pos: usize) -> (start: usize)
    requires
        pos <= chars.len(),
    ensures
        start == pos + blanks(chars@, pos as int),
        start <= chars.len(),
{
    let mut start = pos;
    while start < chars.len() && chars[start].is_whitespace()
        invariant
            pos <= start <= chars.len(),
            start + blanks(chars@, start as int) == pos + blanks(chars@, pos as int),
        decreases chars.len() - start,
    {
        start += 1;
    }
    start
}

fn read_atom<P: Fn(&str) -> Option<u64>>(chars: &Vec<char>, pos: usize, number: &P) -> (result:
    Result<(Rc<Value>, usize), ReadError>)
    requires
        pos <= chars.len(),
        number_ok(*number),
    ensures
        reads(result, read_atom_spec(number_model(*number), chars@, pos as int), pos as int, chars.len() as int),
{
    let mut atom = String::new();
    let mut end = pos;
    while end < chars.len() && !(chars[end].is_whitespace() || chars[end] == '(' || chars[end]
        == ')')
        invariant
            pos <= end <= chars.len(),
            end + atom_len(chars@, end as int) == pos + atom_len(chars@, pos as int),
            atom@ == chars@.subrange(pos as int, end as int),
        decreases chars.len() - end,
    {
        push_char(&mut atom, chars[end]);
        assert(chars@.subrange(pos as int, end as int).push(chars@[end as int])
            =~= chars@.subrange(pos as int, end + 1));
        end += 1;
    }
    if end == pos {
        return Err(ReadError::ExpectedAtom);
    }
    match parse_number(number, atom.as_str()) {
        Some(bits) => Ok((Rc::new(Value::Number(bits)), end)),
        None => Ok((Rc::new(Value::Symbol(atom)), end)),
    }
}

fn read_expr<P: Fn(&str) -> Option<u64>>(chars: &Vec<char>, pos: usize, number: &P) -> (result:
    Result<(Rc<Value>, usize), ReadError>)
    requires
        pos <= chars.len(),
        number_ok(*number),
    ensures
        reads(result, read_expr_spec(number_model(*number), chars@, pos as int), pos as int, chars.len() as int),
    decreases chars.len() - pos, 0nat,
{
    let start = skip_whitespace(chars, pos);
    if start >= chars.len() {
        Err(ReadError::UnexpectedEnd)
    } else if chars[start] == '(' {
        read_list(chars, start + 1, number)
    } else if chars[start] == '\'' {
        match read_expr(chars, start + 1, number) {
            Ok((expr, end)) => Ok(
                (
                    cons(
                        Rc::new(Value::Symbol("quote".to_owned())),
                        cons(expr, Rc::new(Value::Nil)),
                    ),
                    end,
                ),
            ),
            Err(e) => Err(e),
        }
    } else {
        read_atom(chars, start, number)
    }
}

fn read_list<P: Fn(&str) -> Option<u64>>(chars: &Vec<char>, pos: usize, number: &P) -> (result:
    Result<(Rc<Value>, usize), ReadError>)
    requires
        pos <= chars.len(),
        number_ok(*number),
    ensures
        match result {
            Ok((value, end)) => read_list_spec(number_model(*number), chars@, pos as int) == Ok::<
                (Datum, int),
                ReadError,
            >((value@, end as int)) && pos < end <= chars.len(),
            Err(e) => read_list_spec(number_model(*number), chars@, pos as int) == Err::<(Datum, int), ReadError>(
                e,
            ),
        },
    decreases chars.len() - pos, 1nat,
{
    let start = skip_whitespace(chars, pos);
    if start >= chars.len() {
        Err(ReadError::UnterminatedList)
    } else if chars[start] == ')' {
        Ok((Rc::new(Value::Nil), start + 1))
    } else {
        match read_expr(chars, start, number) {
            Ok((car, next)) => match read_list(chars, next, number) {
                Ok((cdr, end)) => Ok((cons(car, cdr), end)),
                Err(e) => Err(e),
            },
            Err(e) => Err(e),
        }
    }
}

/// Reads the first expression of `input`. Trailing characters are ignored.
/// `number` is the host's parser of numeric literals.
pub fn read<P: Fn(&str) -> Option<u64>>(input: &str, number: &P) -> (result: Result<
    Rc<Value>,
    ReadError,
>)
    requires
        number_ok(*number),
    ensures
        match result {
            Ok(value) => read_spec(number_model(*number), input@) == Ok::<Datum, ReadError>(value@),
            Err(e) => read_spec(number_model(*number), input@) == Err::<Datum, ReadError>(e),
        },
{
    let chars = chars_of(input);
    match read_expr(&chars, 0, number) {
        Ok((expr, _)) => Ok(expr),
        Err(e) => Err(e),
    }
}

} // verus!
