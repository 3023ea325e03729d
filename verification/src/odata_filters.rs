//! The grammar of `OData` filter text:
//!
//! ```text
//! or      := and ("or" and)*
//! and     := unary ("and" unary)*
//! unary   := "not" unary | compare
//! compare := atom [ op atom | "in" "(" list ")" ]
//! atom    := "(" or ")" | 'text' | literal | name "(" list ")" | name
//! list    := [ or ("," or)* ]
//! ```
//!
//! `and` and `or` group to the left.

use vstd::prelude::*;

use crate::ast::{CompareOperator, Expr, ExprModel, Value, ValueModel};
use crate::odata_lexer::{lex, lex_spec, tokens_model, Token, TokenModel};
use crate::odata_words::{
    classify, classify_literal, compare_op_of, compare_op_word, identifier, is_identifier, is_keyword, keyword,
};
use crate::text::{chars_eq_str, chars_of, owned, string_from_chars};

verus! {

/// Whether token `i` of `t` exists and is `x`.
pub open spec fn tok_at(t: Seq<TokenModel>, i: int, x: TokenModel) -> bool {
    0 <= i < t.len() && t[i] == x
}

/// Whether token `i` of `t` is the word `k`.
pub open spec fn tok_is(t: Seq<TokenModel>, i: int, k: Seq<char>) -> bool {
    tok_at(t, i, TokenModel::Word(k))
}

/// `or` at position `i`: the expression and the position after it.
pub open spec fn p_or(t: Seq<TokenModel>, i: int) -> Option<(ExprModel, int)>
    decreases t.len() - i, 8int,
{
    match p_and(t, i) {
        None => None,
        Some((l, j)) => if j <= i || j > t.len() {
            None
        } else {
            p_or_tail(t, j, l)
        },
    }
}

/// The `("or" and)*` continuation of `left` at position `j`.
pub open spec fn p_or_tail(t: Seq<TokenModel>, j: int, left: ExprModel) -> Option<(ExprModel, int)>
    decreases t.len() - j, 9int,
{
    if tok_is(t, j, "or"@) {
        match p_and(t, j + 1) {
            None => None,
            Some((r, k)) => if k <= j || k > t.len() {
                None
            } else {
                p_or_tail(t, k, ExprModel::Or(Box::new(left), Box::new(r)))
            },
        }
    } else {
        Some((left, j))
    }
}

/// `and` at position `i`.
pub open spec fn p_and(t: Seq<TokenModel>, i: int) -> Option<(ExprModel, int)>
    decreases t.len() - i, 7int,
{
    match p_unary(t, i) {
        None => None,
        Some((l, j)) => if j <= i || j > t.len() {
            None
        } else {
            p_and_tail(t, j, l)
        },
    }
}

/// The `("and" unary)*` continuation of `left` at position `j`.
pub open spec fn p_and_tail(t: Seq<TokenModel>, j: int, left: ExprModel) -> Option<(ExprModel, int)>
    decreases t.len() - j, 9int,
{
    if tok_is(t, j, "and"@) {
        match p_unary(t, j + 1) {
            None => None,
            Some((r, k)) => if k <= j || k > t.len() {
                None
            } else {
                p_and_tail(t, k, ExprModel::And(Box::new(left), Box::new(r)))
            },
        }
    } else {
        Some((left, j))
    }
}

/// `unary` at position `i`.
pub open spec fn p_unary(t: Seq<TokenModel>, i: int) -> Option<(ExprModel, int)>
    decreases t.len() - i, 6int,
{
    if tok_is(t, i, "not"@) {
        match p_unary(t, i + 1) {
            None => None,
            Some((e, j)) => Some((ExprModel::Not(Box::new(e)), j)),
        }
    } else {
        p_comparison(t, i)
    }
}

/// `compare` at position `i`.
pub open spec fn p_comparison(t: Seq<TokenModel>, i: int) -> Option<(ExprModel, int)>
    decreases t.len() - i, 5int,
{
    match p_atom(t, i) {
        None => None,
        Some((l, j)) => if j <= i || j > t.len() {
            None
        } else if j < t.len() && compare_op_of(t[j]) is Some {
            match p_atom(t, j + 1) {
                None => None,
                Some((r, k)) => Some(
                    (ExprModel::Compare(Box::new(l), compare_op_of(t[j])->0, Box::new(r)), k),
                ),
            }
        } else if tok_is(t, j, "in"@) {
            if tok_at(t, j + 1, TokenModel::LParen) {
                match p_list(t, j + 2) {
                    None => None,
                    Some((items, k)) => Some((ExprModel::In(Box::new(l), items), k)),
                }
            } else {
                None
            }
        } else {
            Some((l, j))
        },
    }
}

/// `atom` at position `i`.
pub open spec fn p_atom(t: Seq<TokenModel>, i: int) -> Option<(ExprModel, int)>
    decreases t.len() - i, 4int,
{
    if i < 0 || i >= t.len() {
        None
    } else {
        match t[i] {
            TokenModel::LParen => match p_or(t, i + 1) {
                None => None,
                Some((e, j)) => if tok_at(t, j, TokenModel::RParen) {
                    Some((e, j + 1))
                } else {
                    None
                },
            },
            TokenModel::Quoted(s) => Some((ExprModel::Value(ValueModel::String(s)), i + 1)),
            TokenModel::Word(w) => if is_keyword(w) {
                None
            } else {
                match classify_literal(w) {
                    Some(v) => Some((ExprModel::Value(v), i + 1)),
                    None => if !is_identifier(w) {
                        None
                    } else if tok_at(t, i + 1, TokenModel::LParen) {
                        match p_list(t, i + 2) {
                            None => None,
                            Some((args, j)) => Some((ExprModel::Function(w, args), j)),
                        }
                    } else {
                        Some((ExprModel::Identifier(w), i + 1))
                    },
                }
            },
            _ => None,
        }
    }
}

/// `list ")"` at position `i`: the items and the position after the `)`.
pub open spec fn p_list(t: Seq<TokenModel>, i: int) -> Option<(Seq<ExprModel>, int)>
    decreases t.len() - i, 11int,
{
    if tok_at(t, i, TokenModel::RParen) {
        Some((seq![], i + 1))
    } else {
        p_items(t, i, seq![])
    }
}

/// The items of a non-empty list after the items `acc`, up to and past its `)`.
pub open spec fn p_items(t: Seq<TokenModel>, i: int, acc: Seq<ExprModel>) -> Option<(Seq<ExprModel>, int)>
    decreases t.len() - i, 10int,
{
    match p_or(t, i) {
        None => None,
        Some((e, j)) => if j <= i || j > t.len() {
            None
        } else if tok_at(t, j, TokenModel::Comma) {
            p_items(t, j + 1, acc.push(e))
        } else if tok_at(t, j, TokenModel::RParen) {
            Some((acc.push(e), j + 1))
        } else {
            None
        },
    }
}

/// The expression that the whole of the text `s` spells, if it spells one.
pub open spec fn parse_spec(s: Seq<char>) -> Option<ExprModel> {
    match lex_spec(s) {
        None => None,
        Some(t) => match p_or(t, 0) {
            Some((e, j)) => if j == t.len() {
                Some(e)
            } else {
                None
            },
            None => None,
        },
    }
}

/// Whether token `i` is `(` / `)` / `,` / a given word.
fn is_lparen(toks: &Vec<Token>, i: usize) -> (r: bool)
    ensures
        r == tok_at(tokens_model(toks@), i as int, TokenModel::LParen),
        r ==> i < toks.len(),
{
    i < toks.len() && matches!(toks[i], Token::LParen)
}

fn is_rparen(toks: &Vec<Token>, i: usize) -> (r: bool)
    ensures
        r == tok_at(tokens_model(toks@), i as int, TokenModel::RParen),
        r ==> i < toks.len(),
{
    i < toks.len() && matches!(toks[i], Token::RParen)
}

fn is_comma(toks: &Vec<Token>, i: usize) -> (r: bool)
    ensures
        r == tok_at(tokens_model(toks@), i as int, TokenModel::Comma),
        r ==> i < toks.len(),
{
    i < toks.len() && matches!(toks[i], Token::Comma)
}

fn is_word(toks: &Vec<Token>, i: usize, k: &str) -> (r: bool)
    ensures
        r == tok_is(tokens_model(toks@), i as int, k@),
        r ==> i < toks.len(),
{
    if i < toks.len() {
        match &toks[i] {
            Token::Word(w) => chars_eq_str(w, k),
            _ => false,
        }
    } else {
        false
    }
}

fn parse_or(toks: &Vec<Token>, i: usize) -> (r: Option<(Expr, usize)>)
    requires
        i <= toks@.len(),
    ensures
        match r {
            Some((e, j)) => p_or(tokens_model(toks@), i as int) == Some((e@, j as int)),
            None => p_or(tokens_model(toks@), i as int) is None,
        },
    decreases toks@.len() - i, 8int,
{
    match parse_and(toks, i) {
        None => None,
        Some((l, j)) => if j <= i || j > toks.len() {
            None
        } else {
            parse_or_tail(toks, j, l)
        },
    }
}

fn parse_or_tail(toks: &Vec<Token>, j: usize, left: Expr) -> (r: Option<(Expr, usize)>)
    requires
        j <= toks@.len(),
    ensures
        match r {
            Some((e, k)) => p_or_tail(tokens_model(toks@), j as int, left@) == Some((e@, k as int)),
            None => p_or_tail(tokens_model(toks@), j as int, left@) is None,
        },
    decreases toks@.len() - j, 9int,
{
    if is_word(toks, j, "or") {
        match parse_and(toks, j + 1) {
            None => None,
            Some((r, k)) => if k <= j || k > toks.len() {
                None
            } else {
                parse_or_tail(toks, k, Expr::Or(Box::new(left), Box::new(r)))
            },
        }
    } else {
        Some((left, j))
    }
}

fn parse_and(toks: &Vec<Token>, i: usize) -> (r: Option<(Expr, usize)>)
    requires
        i <= toks@.len(),
    ensures
        match r {
            Some((e, j)) => p_and(tokens_model(toks@), i as int) == Some((e@, j as int)),
            None => p_and(tokens_model(toks@), i as int) is None,
        },
    decreases toks@.len() - i, 7int,
{
    match parse_unary(toks, i) {
        None => None,
        Some((l, j)) => if j <= i || j > toks.len() {
            None
        } else {
            parse_and_tail(toks, j, l)
        },
    }
}

fn parse_and_tail(toks: &Vec<Token>, j: usize, left: Expr) -> (r: Option<(Expr, usize)>)
    requires
        j <= toks@.len(),
    ensures
        match r {
            Some((e, k)) => p_and_tail(tokens_model(toks@), j as int, left@) == Some((e@, k as int)),
            None => p_and_tail(tokens_model(toks@), j as int, left@) is None,
        },
    decreases toks@.len() - j, 9int,
{
    if is_word(toks, j, "and") {
        match parse_unary(toks, j + 1) {
            None => None,
            Some((r, k)) => if k <= j || k > toks.len() {
                None
            } else {
                parse_and_tail(toks, k, Expr::And(Box::new(left), Box::new(r)))
            },
        }
    } else {
        Some((left, j))
    }
}

fn parse_unary(toks: &Vec<Token>, i: usize) -> (r: Option<(Expr, usize)>)
    requires
        i <= toks@.len(),
    ensures
        match r {
            Some((e, j)) => p_unary(tokens_model(toks@), i as int) == Some((e@, j as int)),
            None => p_unary(tokens_model(toks@), i as int) is None,
        },
    decreases toks@.len() - i, 6int,
{
    if is_word(toks, i, "not") {
        match parse_unary(toks, i + 1) {
            None => None,
            Some((e, j)) => Some((Expr::Not(Box::new(e)), j)),
        }
    } else {
        parse_comparison(toks, i)
    }
}

fn compare_op_at(toks: &Vec<Token>, j: usize) -> (r: Option<CompareOperator>)
    requires
        j < toks@.len(),
    ensures
        r == compare_op_of(tokens_model(toks@)[j as int]),
{
    match &toks[j] {
        Token::Word(w) => compare_op_word(w),
        _ => None,
    }
}

fn parse_comparison(toks: &Vec<Token>, i: usize) -> (r: Option<(Expr, usize)>)
    requires
        i <= toks@.len(),
    ensures
        match r {
            Some((e, j)) => p_comparison(tokens_model(toks@), i as int) == Some((e@, j as int)),
            None => p_comparison(tokens_model(toks@), i as int) is None,
        },
    decreases toks@.len() - i, 5int,
{
    match parse_atom(toks, i) {
        None => None,
        Some((l, j)) => {
            if j <= i || j > toks.len() {
                return None;
            }
            let op = if j < toks.len() {
                compare_op_at(toks, j)
            } else {
                None
            };
            match op {
                Some(op) => match parse_atom(toks, j + 1) {
                    None => None,
                    Some((r, k)) => Some((Expr::Compare(Box::new(l), op, Box::new(r)), k)),
                },
                None => if is_word(toks, j, "in") {
                    if is_lparen(toks, j + 1) {
                        match parse_list(toks, j + 2) {
                            None => None,
                            Some((items, k)) => {
                                proof {
                                    Expr::lemma_models(items@);
                                }
                                Some((Expr::In(Box::new(l), items), k))
                            },
                        }
                    } else {
                        None
                    }
                } else {
                    Some((l, j))
                },
            }
        },
    }
}

fn parse_atom(toks: &Vec<Token>, i: usize) -> (r: Option<(Expr, usize)>)
    requires
        i <= toks@.len(),
    ensures
        match r {
            Some((e, j)) => p_atom(tokens_model(toks@), i as int) == Some((e@, j as int)),
            None => p_atom(tokens_model(toks@), i as int) is None,
        },
    decreases toks@.len() - i, 4int,
{
    if i >= toks.len() {
        return None;
    }
    match &toks[i] {
        Token::LParen => match parse_or(toks, i + 1) {
            None => None,
            Some((e, j)) => if is_rparen(toks, j) {
                Some((e, j + 1))
            } else {
                None
            },
        },
        Token::Quoted(s) => Some((Expr::Value(Value::String(string_from_chars(s))), i + 1)),
        Token::Word(w) => {
            if keyword(w) {
                return None;
            }
            match classify(w) {
                Some(v) => Some((Expr::Value(v), i + 1)),
                None => if !identifier(w) {
                    None
                } else if is_lparen(toks, i + 1) {
                    match parse_list(toks, i + 2) {
                        None => None,
                        Some((args, j)) => Some((Expr::Function(string_from_chars(w), args), j)),
                    }
                } else {
                    Some((Expr::Identifier(string_from_chars(w)), i + 1))
                },
            }
        },
        _ => None,
    }
}

fn parse_list(toks: &Vec<Token>, i: usize) -> (r: Option<(Vec<Expr>, usize)>)
    requires
        i <= toks@.len(),
    ensures
        match r {
            Some((items, j)) => p_list(tokens_model(toks@), i as int) == Some((Expr::models(items@), j as int)),
            None => p_list(tokens_model(toks@), i as int) is None,
        },
    decreases toks@.len() - i, 11int,
{
    if is_rparen(toks, i) {
        let v: Vec<Expr> = Vec::new();
        assert(Expr::models(v@) =~= Seq::<ExprModel>::empty());
        Some((v, i + 1))
    } else {
        let v: Vec<Expr> = Vec::new();
        assert(Expr::models(v@) =~= Seq::<ExprModel>::empty());
        parse_items(toks, i, v)
    }
}

fn parse_items(toks: &Vec<Token>, i: usize, acc: Vec<Expr>) -> (r: Option<(Vec<Expr>, usize)>)
    requires
        i <= toks@.len(),
    ensures
        match r {
            Some((items, j)) => p_items(tokens_model(toks@), i as int, Expr::models(acc@)) == Some(
                (Expr::models(items@), j as int),
            ),
            None => p_items(tokens_model(toks@), i as int, Expr::models(acc@)) is None,
        },
    decreases toks@.len() - i, 10int,
{
    match parse_or(toks, i) {
        None => None,
        Some((e, j)) => {
            if j <= i || j > toks.len() {
                return None;
            }
            let ghost prev = acc@;
            let ghost em = e@;
            let mut acc = acc;
            acc.push(e);
            assert(acc@.drop_last() =~= prev);
            assert(Expr::models(acc@) == Expr::models(prev).push(em));
            if is_comma(toks, j) {
                parse_items(toks, j + 1, acc)
            } else if is_rparen(toks, j) {
                Some((acc, j + 1))
            } else {
                None
            }
        },
    }
}

/// Why filter text could not be parsed.
#[derive(Debug, Clone, Copy, PartialEq, Eq)]
pub struct ParseError;

impl ParseError {
    /// The message of this error.
    pub fn to_string(&self) -> (r: String)
        ensures
            r@ == parse_error_text(),
    {
        owned("invalid filter syntax")
    }
}

/// The message of a parse error.
pub open spec fn parse_error_text() -> Seq<char> {
    "invalid filter syntax"@
}

/// Parses filter text into an expression.
pub fn parse_str(raw: &str) -> (r: Result<Expr, ParseError>)
    ensures
        match r {
            Ok(e) => parse_spec(raw@) == Some(e@),
            Err(_) => parse_spec(raw@) is None,
        },
{
    let chars = chars_of(raw);
    let toks = match lex(&chars) {
        None => {
            return Err(ParseError);
        },
        Some(t) => t,
    };
    match parse_or(&toks, 0) {
        None => Err(ParseError),
        Some((e, j)) => if j == toks.len() {
            Ok(e)
        } else {
            Err(ParseError)
        },
    }
}

} // verus!
