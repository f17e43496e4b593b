//! A verified parser for a restricted, YAML-flavored language that
//! describes a relational schema: a named schema holding tables, each
//! holding columns with a datatype and a nullability/repetition mode.
//!
//! [`parse_schema`] is the entry point.  It tokenizes the input
//! ([`token`]), reduces the tokens to a concrete syntax tree under the
//! grammar ([`grammar`]), and lowers that tree into the [`Schema`] model
//! ([`lower`]).  Every step is specified by a pure function of the input
//! alone, so parsing is deterministic by contract; [`props`] states and
//! proves the library's laws over those functions.

pub mod grammar;
pub mod lower;
pub mod model;
pub mod props;
pub mod token;

pub use model::{Column, Schema, SchemaErr, Table};
pub use grammar::YAMLParser;

use vstd::prelude::*;

use grammar::sp_file;
use lower::lower_file;
use model::SchemaV;
use token::tokens_of;

verus! {

/// What a parse of a token sequence yields: a schema model, a syntax
/// failure, or a missing clause value.
pub ghost enum ParseOutcome {
    Parsed(SchemaV),
    Syntax,
    Missing,
}

/// The outcome of parsing a token sequence: grammar step, then lowering.
pub open spec fn spec_parse_tokens(toks: Seq<Seq<char>>) -> ParseOutcome {
    match sp_file(toks) {
        Option::Some(f) => match lower_file(f) {
            Result::Ok(s) => ParseOutcome::Parsed(s),
            Result::Err(_) => ParseOutcome::Missing,
        },
        Option::None => ParseOutcome::Syntax,
    }
}

/// The outcome of parsing an input document, as a pure function of its
/// characters alone.
pub open spec fn spec_parse_schema(s: Seq<char>) -> ParseOutcome {
    spec_parse_tokens(tokens_of(s))
}

/// The decimal digit character of `d`.
pub open spec fn dec_digit_char(d: int) -> char {
    if d == 0 {
        '0'
    } else if d == 1 {
        '1'
    } else if d == 2 {
        '2'
    } else if d == 3 {
        '3'
    } else if d == 4 {
        '4'
    } else if d == 5 {
        '5'
    } else if d == 6 {
        '6'
    } else if d == 7 {
        '7'
    } else if d == 8 {
        '8'
    } else {
        '9'
    }
}

/// The decimal rendering of a non-negative number.
pub open spec fn dec_digits(n: int) -> Seq<char>
    decreases n,
{
    if n < 10 {
        seq![dec_digit_char(n)]
    } else {
        dec_digits(n / 10).push(dec_digit_char(n % 10))
    }
}

/// One decimal digit as an owned string.
fn digit_str(d: usize) -> (r: String)
    requires
        d < 10,
    ensures
        r@ == seq![dec_digit_char(d as int)],
{
    let r = if d == 0 {
        String::from_str("0")
    } else if d == 1 {
        String::from_str("1")
    } else if d == 2 {
        String::from_str("2")
    } else if d == 3 {
        String::from_str("3")
    } else if d == 4 {
        String::from_str("4")
    } else if d == 5 {
        String::from_str("5")
    } else if d == 6 {
        String::from_str("6")
    } else if d == 7 {
        String::from_str("7")
    } else if d == 8 {
        String::from_str("8")
    } else {
        String::from_str("9")
    };
    proof {
        reveal_strlit("0");
        reveal_strlit("1");
        reveal_strlit("2");
        reveal_strlit("3");
        reveal_strlit("4");
        reveal_strlit("5");
        reveal_strlit("6");
        reveal_strlit("7");
        reveal_strlit("8");
        reveal_strlit("9");
        assert(r@ =~= seq![dec_digit_char(d as int)]);
    }
    r
}

/// The decimal rendering of a number, for failure positions in messages.
fn dec_string(n: usize) -> (r: String)
    ensures
        r@ == dec_digits(n as int),
    decreases n,
{
    if n < 10 {
        digit_str(n)
    } else {
        let mut r = dec_string(n / 10);
        let last = digit_str(n % 10);
        r.append(last.as_str());
        proof {
            assert(r@ =~= dec_digits(n as int / 10).push(dec_digit_char(n as int % 10)));
        }
        r
    }
}

/// Parses a schema document into a [`Schema`].
///
/// The result is pinned to [`spec_parse_schema`] of the input characters:
/// a token sequence reducible to the grammar's `file` rule whose tree
/// lowers cleanly yields `Ok` of exactly the lowered model; a token
/// sequence the grammar rejects yields [`SchemaErr::ParseError`], whose
/// message names the offending token position; a tree holding a `type:`
/// or `mode:` clause without a value yields [`SchemaErr::MissingValue`].
/// Because the outcome is a function of the input characters alone, two
/// calls on equal inputs return field-wise equal results.
pub fn parse_schema(input: &str) -> (r: Result<Schema, SchemaErr>)
    ensures
        spec_parse_schema(input@) matches ParseOutcome::Parsed(s) ==> (r matches Ok(schema)
            && schema@ == s),
        spec_parse_schema(input@) is Syntax ==> (r matches Err(e) && e matches
            SchemaErr::ParseError(m) && (exists|p: int|
            0 <= p && m@ == "syntax error near token "@ + #[trigger] dec_digits(p))),
        spec_parse_schema(input@) is Missing ==> r == Result::<Schema, SchemaErr>::Err(
            SchemaErr::MissingValue,
        ),
{
    let toks = token::tokenize(input);
    match YAMLParser::parse_file(&toks) {
        Ok(file) => lower::lower(&file),
        Err(pos) => {
            let mut msg = String::from_str("syntax error near token ");
            let digits = dec_string(pos);
            msg.append(digits.as_str());
            proof {
                assert(msg@ == "syntax error near token "@ + dec_digits(pos as int));
            }
            Err(SchemaErr::ParseError(msg))
        },
    }
}

} // verus!
