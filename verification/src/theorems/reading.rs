//! What holds of reading, and of reading what was printed.

use crate::interpreter::{Host, World};
use crate::parser::{
    atom_len, blanks, delimiter, read_expr_spec, read_list_spec, read_spec, white_space, ReadError,
};
use crate::printer::{print_rest, print_spec};
use crate::semantics::eval_spec;
use crate::types::{Datum, EnvRef};
use vstd::prelude::*;

verus! {

/// White space up to the end is skipped up to the end.
pub proof fn blanks_to_the_end(s: Seq<char>, pos: int)
    requires
        0 <= pos <= s.len(),
        forall|i: int| pos <= i < s.len() ==> white_space(#[trigger] s[i]),
    ensures
        pos + blanks(s, pos) == s.len(),
    decreases s.len() - pos,
{
    if pos < s.len() {
        blanks_to_the_end(s, pos + 1);
    }
}

/// An atom runs to the end of a text that holds no delimiter behind `pos`.
pub proof fn atom_to_the_end(s: Seq<char>, pos: int)
    requires
        0 <= pos <= s.len(),
        forall|i: int| pos <= i < s.len() ==> !delimiter(#[trigger] s[i]),
    ensures
        pos + atom_len(s, pos) == s.len(),
    decreases s.len() - pos,
{
    if pos < s.len() {
        atom_to_the_end(s, pos + 1);
    }
}

/// Skipping white space stays within the text.
pub proof fn blanks_within(s: Seq<char>, pos: int)
    requires
        0 <= pos <= s.len(),
    ensures
        pos + blanks(s, pos) <= s.len(),
    decreases s.len() - pos,
{
    if pos < s.len() && white_space(s[pos]) {
        blanks_within(s, pos + 1);
    }
}

/// An atom stays within the text.
pub proof fn atom_within(s: Seq<char>, pos: int)
    requires
        0 <= pos <= s.len(),
    ensures
        pos + atom_len(s, pos) <= s.len(),
    decreases s.len() - pos,
{
    if pos < s.len() && !delimiter(s[pos]) {
        atom_within(s, pos + 1);
    }
}

/// Reading an expression uses up at least one character and stays within
/// the text.
pub proof fn expression_advances(number: spec_fn(Seq<char>) -> Option<u64>, s: Seq<char>, pos: int)
    requires
        0 <= pos <= s.len(),
    ensures
        read_expr_spec(number, s, pos) matches Ok((_, end)) ==> pos < end <= s.len(),
    decreases s.len() - pos, 0nat,
{
    blanks_within(s, pos);
    let start = pos + blanks(s, pos);
    if start >= s.len() {
    } else if s[start] == '(' {
        list_advances(number, s, start + 1);
    } else if s[start] == '\'' {
        expression_advances(number, s, start + 1);
    } else {
        atom_within(s, start);
    }
}

/// Reading the rest of a list uses up at least one character and stays
/// within the text. So does each of its elements: the grammar never turns a
/// list down for an element that did not advance.
pub proof fn list_advances(number: spec_fn(Seq<char>) -> Option<u64>, s: Seq<char>, pos: int)
    requires
        0 <= pos <= s.len(),
    ensures
        read_list_spec(number, s, pos) matches Ok((_, end)) ==> pos < end <= s.len(),
        ({
            let start = pos + blanks(s, pos);
            read_expr_spec(number, s, start) matches Ok((_, next)) ==> start < next <= s.len()
        }),
    decreases s.len() - pos, 1nat,
{
    blanks_within(s, pos);
    let start = pos + blanks(s, pos);
    expression_advances(number, s, start);
    if start < s.len() && s[start] != ')' {
        match read_expr_spec(number, s, start) {
            Ok((_, next)) => {
                list_advances(number, s, next);
            },
            Err(_) => {},
        }
    }
}

/// A text of nothing but white space, the empty text among them, holds no
/// expression: the reader meets the end where it expects one.
pub proof fn blank_text_ends_unexpectedly(number: spec_fn(Seq<char>) -> Option<u64>, text: Seq<char>)
    requires
        forall|i: int| 0 <= i < text.len() ==> white_space(#[trigger] text[i]),
    ensures
        read_spec(number, text) == Err::<Datum, ReadError>(ReadError::UnexpectedEnd),
{
    blanks_to_the_end(text, 0);
}

/// A list that is still open where only white space is left fails as not
/// terminated.
pub proof fn open_list_is_unterminated(
    number: spec_fn(Seq<char>) -> Option<u64>,
    text: Seq<char>,
    pos: int,
)
    requires
        0 <= pos <= text.len(),
        forall|i: int| pos <= i < text.len() ==> white_space(#[trigger] text[i]),
    ensures
        read_list_spec(number, text, pos) == Err::<(Datum, int), ReadError>(
            ReadError::UnterminatedList,
        ),
{
    blanks_to_the_end(text, pos);
}

/// A numeric literal goes through reading, evaluating and printing as the
/// host's own parser and formatter have it: the text that is printed is the
/// host's format of the number that the host made of the literal.
///
/// A literal is a text that the host's parser takes for a number, and that
/// the reader takes for one atom.
pub proof fn number_literal_round_trip(
    number: spec_fn(Seq<char>) -> Option<u64>,
    format: spec_fn(u64) -> Seq<char>,
    host: Host,
    world: World,
    env: EnvRef,
    fuel: nat,
    literal: Seq<char>,
)
    requires
        number(literal) is Some,
        plain_atom(literal),
    ensures
        read_spec(number, literal) is Ok,
        print_spec(format, eval_spec(host, world, read_spec(number, literal)->Ok_0, env, fuel).value)
            == format(number(literal)->0),
        eval_spec(host, world, read_spec(number, literal)->Ok_0, env, fuel).world == world,
{
    atom_to_the_end(literal, 0);
    assert(literal.subrange(0, literal.len() as int) =~= literal);
}

/// A text that the reader takes for one atom: not empty, without white
/// space or parentheses, and not opened by the quote mark.
pub open spec fn plain_atom(text: Seq<char>) -> bool {
    &&& text.len() > 0
    &&& text[0] != '\''
    &&& forall|i: int| 0 <= i < text.len() ==> !delimiter(#[trigger] text[i])
}

/// A value whose text holds all of it: a symbol that is a plain atom and no
/// numeric literal, a number whose text the host reads back as that number,
/// or a `Nil`-terminated list of such values.
pub open spec fn readable(
    number: spec_fn(Seq<char>) -> Option<u64>,
    format: spec_fn(u64) -> Seq<char>,
    value: Datum,
) -> bool
    decreases value,
{
    match value {
        Datum::Nil => true,
        Datum::Symbol(name) => plain_atom(name) && number(name) is None,
        Datum::Number(bits) => plain_atom(format(bits)) && number(format(bits)) == Some(bits),
        Datum::Pair(head, tail) => {
            &&& readable(number, format, *head)
            &&& (*tail is Nil || *tail is Pair)
            &&& readable(number, format, *tail)
        },
        _ => false,
    }
}

/// The space is white space, and the parentheses are not.
pub open spec fn usual_white_space() -> bool {
    white_space(' ') && !white_space('(') && !white_space(')')
}

/// The text `part` stands in `s` at `pos`.
pub open spec fn stands(s: Seq<char>, pos: int, part: Seq<char>) -> bool {
    &&& 0 <= pos
    &&& pos + part.len() <= s.len()
    &&& forall|i: int| 0 <= i < part.len() ==> s[pos + i] == #[trigger] part[i]
}

/// Where a text of two parts stands, each part stands.
proof fn stands_apart(s: Seq<char>, pos: int, first: Seq<char>, second: Seq<char>)
    requires
        stands(s, pos, first + second),
    ensures
        stands(s, pos, first),
        stands(s, pos + first.len(), second),
{
    let whole = first + second;
    assert forall|i: int| 0 <= i < first.len() implies s[pos + i] == #[trigger] first[i] by {
        assert(whole[i] == first[i]);
    }
    assert forall|i: int| 0 <= i < second.len() implies s[pos + first.len() + i]
        == #[trigger] second[i] by {
        assert(whole[first.len() + i] == second[i]);
    }
}

/// An atom that stands before a delimiter or the end is as long as it looks.
proof fn atom_stands(s: Seq<char>, pos: int, text: Seq<char>, at: int)
    requires
        stands(s, pos, text),
        forall|i: int| 0 <= i < text.len() ==> !delimiter(#[trigger] text[i]),
        pos + text.len() == s.len() || delimiter(s[pos + text.len()]),
        0 <= at <= text.len(),
    ensures
        atom_len(s, pos + at) == text.len() - at,
    decreases text.len() - at,
{
    if at < text.len() {
        assert(s[pos + at] == text[at]);
        atom_stands(s, pos, text, at + 1);
    }
}

/// The text of a readable value is not empty and opens with a character
/// that is neither white space nor a closing parenthesis.
proof fn text_opens(
    number: spec_fn(Seq<char>) -> Option<u64>,
    format: spec_fn(u64) -> Seq<char>,
    value: Datum,
)
    requires
        readable(number, format, value),
        usual_white_space(),
    ensures
        print_spec(format, value).len() > 0,
        !white_space(print_spec(format, value)[0]),
        print_spec(format, value)[0] != ')',
{
    reveal_strlit("()");
    reveal_strlit("(");
    match value {
        Datum::Pair(head, tail) => {
            let text = "("@ + print_spec(format, *head) + print_rest(format, *tail) + ")"@;
            assert(text[0] == '(');
        },
        Datum::Nil => {
            assert("()"@[0] == '(');
        },
        _ => {},
    }
}

/// The text of a readable value, standing before a delimiter or the end,
/// reads back as the value, up to the end of the text.
pub proof fn reads_back(
    number: spec_fn(Seq<char>) -> Option<u64>,
    format: spec_fn(u64) -> Seq<char>,
    value: Datum,
    s: Seq<char>,
    pos: int,
)
    requires
        readable(number, format, value),
        usual_white_space(),
        stands(s, pos, print_spec(format, value)),
        pos + print_spec(format, value).len() == s.len() || delimiter(
            s[pos + print_spec(format, value).len()],
        ),
    ensures
        read_expr_spec(number, s, pos) == Ok::<(Datum, int), ReadError>(
            (value, pos + print_spec(format, value).len()),
        ),
    decreases value,
{
    let text = print_spec(format, value);
    text_opens(number, format, value);
    match value {
        Datum::Nil => {
            reveal_strlit("()");
            assert("()"@[0] == '(');
            assert("()"@[1] == ')');
            assert(read_list_spec(number, s, pos + 1) == Ok::<(Datum, int), ReadError>(
                (Datum::Nil, pos + 2),
            ));
        },
        Datum::Symbol(name) => {
            atom_stands(s, pos, name, 0);
            assert(s.subrange(pos, pos + name.len()) =~= name);
        },
        Datum::Number(bits) => {
            atom_stands(s, pos, format(bits), 0);
            assert(s.subrange(pos, pos + format(bits).len()) =~= format(bits));
        },
        Datum::Pair(head, tail) => {
            reveal_strlit("(");
            reveal_strlit(")");
            reveal_strlit(" ");
            let first = print_spec(format, *head);
            let rest = print_rest(format, *tail) + ")"@;
            assert(text =~= "("@ + (first + rest));
            stands_apart(s, pos, "("@, first + rest);
            stands_apart(s, pos + 1, first, rest);
            assert(s[pos] == "("@[0]);
            text_opens(number, format, *head);
            let next = pos + 1 + first.len();
            rest_opens(format, *tail);
            reads_back(number, format, *head, s, pos + 1);
            rest_reads_back(number, format, *tail, s, next);
        },
        _ => {},
    }
}

/// What follows an element inside a list, closing parenthesis included,
/// opens with a delimiter.
proof fn rest_opens(format: spec_fn(u64) -> Seq<char>, tail: Datum)
    requires
        tail is Nil || tail is Pair,
        usual_white_space(),
    ensures
        (print_rest(format, tail) + ")"@).len() > 0,
        delimiter((print_rest(format, tail) + ")"@)[0]),
        tail is Nil ==> (print_rest(format, tail) + ")"@)[0] == ')',
        tail is Pair ==> (print_rest(format, tail) + ")"@)[0] == ' ',
{
    reveal_strlit(")");
    reveal_strlit(" ");
    match tail {
        Datum::Pair(head, more) => {
            let text = " "@ + print_spec(format, *head) + print_rest(format, *more) + ")"@;
            assert(text[0] == ' ');
        },
        _ => {
            assert(print_rest(format, tail) + ")"@ =~= ")"@);
        },
    }
}

/// What the printer writes behind an element of a readable list, up to the
/// closing parenthesis, reads back as the rest of the list.
pub proof fn rest_reads_back(
    number: spec_fn(Seq<char>) -> Option<u64>,
    format: spec_fn(u64) -> Seq<char>,
    tail: Datum,
    s: Seq<char>,
    pos: int,
)
    requires
        tail is Nil || tail is Pair,
        readable(number, format, tail),
        usual_white_space(),
        stands(s, pos, print_rest(format, tail) + ")"@),
    ensures
        read_list_spec(number, s, pos) == Ok::<(Datum, int), ReadError>(
            (tail, pos + (print_rest(format, tail) + ")"@).len()),
        ),
    decreases tail,
{
    reveal_strlit(")");
    reveal_strlit(" ");
    let whole = print_rest(format, tail) + ")"@;
    rest_opens(format, tail);
    match tail {
        Datum::Pair(head, more) => {
            let first = print_spec(format, *head);
            let rest = print_rest(format, *more) + ")"@;
            assert(whole =~= " "@ + (first + rest));
            stands_apart(s, pos, " "@, first + rest);
            stands_apart(s, pos + 1, first, rest);
            text_opens(number, format, *head);
            assert(blanks(s, pos + 1) == 0);
            let next = pos + 1 + first.len();
            rest_opens(format, *more);
            reads_back(number, format, *head, s, pos + 1);
            rest_reads_back(number, format, *more, s, next);
        },
        _ => {
            assert(whole =~= ")"@);
        },
    }
}

/// What the printer writes of a readable value, the reader reads back as
/// that value.
pub proof fn print_then_read(
    number: spec_fn(Seq<char>) -> Option<u64>,
    format: spec_fn(u64) -> Seq<char>,
    value: Datum,
)
    requires
        readable(number, format, value),
        usual_white_space(),
    ensures
        read_spec(number, print_spec(format, value)) == Ok::<Datum, ReadError>(value),
{
    reads_back(number, format, value, print_spec(format, value), 0);
}

} // verus!
