//! The canonical tokens of an expression, and the law that parsing them
//! gives the expression back.

use vstd::prelude::*;

use crate::ast::{CompareOperator, ExprModel, ValueModel};
use crate::odata_filters::{
    p_and, p_and_tail, p_atom, p_comparison, p_items, p_list, p_or, p_or_tail, p_unary, tok_at, tok_is,
};
use crate::odata_lexer::TokenModel;
use crate::odata_words::{classify_literal, compare_op_of, is_identifier, is_keyword};

verus! {

/// The word that spells a comparison operator.
pub open spec fn compare_op_word(op: CompareOperator) -> Seq<char> {
    match op {
        CompareOperator::Eq => "eq"@,
        CompareOperator::Ne => "ne"@,
        CompareOperator::Gt => "gt"@,
        CompareOperator::Ge => "ge"@,
        CompareOperator::Lt => "lt"@,
        CompareOperator::Le => "le"@,
    }
}

/// The word that spells a literal other than a string.
pub open spec fn literal_word(v: ValueModel) -> Seq<char> {
    match v {
        ValueModel::Null => "null"@,
        ValueModel::Bool(b) => if b { "true"@ } else { "false"@ },
        ValueModel::Number(s) => s,
        ValueModel::Uuid(s) => s,
        ValueModel::DateTime(s) => s,
        ValueModel::Date(s) => s,
        ValueModel::Time(s) => s,
        ValueModel::String(s) => s,
    }
}

/// `x` in parentheses.
pub open spec fn paren(x: Seq<TokenModel>) -> Seq<TokenModel> {
    seq![TokenModel::LParen] + x + seq![TokenModel::RParen]
}

/// The canonical tokens of an expression: every operand that is not a leaf
/// in parentheses.
pub open spec fn print_expr(e: ExprModel) -> Seq<TokenModel>
    decreases e,
{
    match e {
        ExprModel::Identifier(w) => seq![TokenModel::Word(w)],
        ExprModel::Value(v) => match v {
            ValueModel::String(s) => seq![TokenModel::Quoted(s)],
            _ => seq![TokenModel::Word(literal_word(v))],
        },
        ExprModel::Function(name, args) => seq![TokenModel::Word(name)] + paren(print_list(args)),
        ExprModel::Not(x) => seq![TokenModel::Word("not"@)] + paren(print_expr(*x)),
        ExprModel::And(l, r) => paren(print_expr(*l)) + seq![TokenModel::Word("and"@)] + paren(print_expr(*r)),
        ExprModel::Or(l, r) => paren(print_expr(*l)) + seq![TokenModel::Word("or"@)] + paren(print_expr(*r)),
        ExprModel::Compare(l, op, r) => paren(print_expr(*l)) + seq![TokenModel::Word(compare_op_word(op))] + paren(
            print_expr(*r),
        ),
        ExprModel::In(l, items) => paren(print_expr(*l)) + seq![TokenModel::Word("in"@)] + paren(
            print_list(items),
        ),
    }
}

/// The canonical tokens of a list of expressions, separated by commas.
pub open spec fn print_list(items: Seq<ExprModel>) -> Seq<TokenModel>
    decreases items,
{
    if items.len() == 0 {
        seq![]
    } else if items.len() == 1 {
        print_expr(items[0])
    } else {
        print_expr(items[0]) + seq![TokenModel::Comma] + print_list(items.drop_first())
    }
}

/// A name that parses as itself: an identifier that is neither a keyword nor a literal.
pub open spec fn plain_name(w: Seq<char>) -> bool {
    is_identifier(w) && !is_keyword(w) && classify_literal(w) is None
}

/// Whether every name and literal of `e` reads back as itself.
pub open spec fn wf_expr(e: ExprModel) -> bool
    decreases e,
{
    match e {
        ExprModel::Identifier(w) => plain_name(w),
        ExprModel::Value(v) => match v {
            ValueModel::String(_) => true,
            _ => !is_keyword(literal_word(v)) && classify_literal(literal_word(v)) == Some(v),
        },
        ExprModel::Function(name, args) => plain_name(name) && wf_list(args),
        ExprModel::Not(x) => wf_expr(*x),
        ExprModel::And(l, r) => wf_expr(*l) && wf_expr(*r),
        ExprModel::Or(l, r) => wf_expr(*l) && wf_expr(*r),
        ExprModel::Compare(l, _, r) => wf_expr(*l) && wf_expr(*r),
        ExprModel::In(l, items) => wf_expr(*l) && wf_list(items),
    }
}

/// Whether every expression of a list is well formed.
pub open spec fn wf_list(items: Seq<ExprModel>) -> bool
    decreases items,
{
    if items.len() == 0 {
        true
    } else {
        wf_expr(items[0]) && wf_list(items.drop_first())
    }
}

/// Whether the tokens `x` stand at position `i` of `t`.
pub open spec fn stands_at(t: Seq<TokenModel>, i: int, x: Seq<TokenModel>) -> bool {
    0 <= i && i + x.len() <= t.len() && t.subrange(i, i + x.len()) == x
}

/// Whether position `j` of `t` may end an expression: the end, `)` or `,`.
pub open spec fn ends_ok(t: Seq<TokenModel>, j: int) -> bool {
    j == t.len() || tok_at(t, j, TokenModel::RParen) || tok_at(t, j, TokenModel::Comma)
}

proof fn lemma_stands_split(t: Seq<TokenModel>, i: int, a: Seq<TokenModel>, b: Seq<TokenModel>)
    requires
        stands_at(t, i, a + b),
    ensures
        stands_at(t, i, a),
        stands_at(t, i + a.len(), b),
{
    let s = t.subrange(i, i + a.len() + b.len());
    assert(s == a + b);
    assert forall|k: int| 0 <= k < a.len() implies #[trigger] t.subrange(i, i + a.len())[k] == a[k] by {
        assert(s[k] == (a + b)[k]);
    }
    assert(t.subrange(i, i + a.len()) =~= a);
    assert forall|k: int| 0 <= k < b.len() implies #[trigger] t.subrange(i + a.len(), i + a.len() + b.len())[k]
        == b[k] by {
        assert(s[a.len() + k] == (a + b)[a.len() + k]);
    }
    assert(t.subrange(i + a.len(), i + a.len() + b.len()) =~= b);
}

proof fn lemma_stands_token(t: Seq<TokenModel>, i: int, x: TokenModel)
    requires
        stands_at(t, i, seq![x]),
    ensures
        tok_at(t, i, x),
{
    assert(t.subrange(i, i + 1)[0] == t[i]);
}

/// The words of the grammar are distinct from each other.
pub proof fn lemma_words_distinct()
    ensures
        compare_op_of(TokenModel::Word("and"@)) is None,
        compare_op_of(TokenModel::Word("or"@)) is None,
        compare_op_of(TokenModel::Word("in"@)) is None,
        "and"@ != "in"@,
        "or"@ != "in"@,
        "or"@ != "and"@,
        forall|op: CompareOperator| #[trigger] compare_op_of(TokenModel::Word(compare_op_word(op))) == Some(op),
        forall|op: CompareOperator| compare_op_word(op) != "in"@,
{
    reveal_strlit("and");
    reveal_strlit("or");
    reveal_strlit("in");
    reveal_strlit("eq");
    reveal_strlit("ne");
    reveal_strlit("gt");
    reveal_strlit("ge");
    reveal_strlit("lt");
    reveal_strlit("le");
    assert("and"@.len() == 3);
    assert("or"@[0] == 'o' && "in"@[0] == 'i' && "eq"@[0] == 'e' && "ne"@[0] == 'n');
    assert("gt"@[0] == 'g' && "ge"@[0] == 'g' && "lt"@[0] == 'l' && "le"@[0] == 'l');
    assert("gt"@[1] == 't' && "ge"@[1] == 'e' && "lt"@[1] == 't' && "le"@[1] == 'e');
    assert("or"@[1] == 'r' && "in"@[1] == 'n' && "eq"@[1] == 'q' && "ne"@[1] == 'e');
    assert("eq"@.len() == 2 && "ne"@.len() == 2 && "gt"@.len() == 2 && "ge"@.len() == 2);
    assert("lt"@.len() == 2 && "le"@.len() == 2 && "or"@.len() == 2 && "in"@.len() == 2);
}

/// A comparison-level result that nothing continues is the result of `or`.
proof fn lemma_lift(t: Seq<TokenModel>, i: int, x: ExprModel, j: int)
    requires
        0 <= i < j <= t.len(),
        p_unary(t, i) == Some((x, j)),
        ends_ok(t, j),
    ensures
        p_or(t, i) == Some((x, j)),
{
    assert(p_and_tail(t, j, x) == Some((x, j)));
    assert(p_and(t, i) == Some((x, j)));
    assert(p_or_tail(t, j, x) == Some((x, j)));
}

/// An atom followed by a token that neither compares nor opens `in` is a comparison-level result.
proof fn lemma_atom_alone(t: Seq<TokenModel>, i: int, x: ExprModel, j: int)
    requires
        0 <= i < j <= t.len(),
        p_atom(t, i) == Some((x, j)),
        j < t.len() ==> compare_op_of(t[j]) is None && !tok_is(t, j, "in"@),
        !tok_is(t, i, "not"@),
    ensures
        p_unary(t, i) == Some((x, j)),
{
    assert(p_comparison(t, i) == Some((x, j)));
}

proof fn lemma_ends_ok_plain(t: Seq<TokenModel>, j: int)
    requires
        ends_ok(t, j),
    ensures
        j < t.len() ==> compare_op_of(t[j]) is None && !tok_is(t, j, "in"@) && !tok_is(t, j, "and"@) && !tok_is(
            t,
            j,
            "or"@,
        ),
{
}

/// The canonical tokens of a well-formed expression parse back to it, at any
/// position where they stand and are followed by an end, `)` or `,`.
pub proof fn lemma_parse_printed(e: ExprModel, t: Seq<TokenModel>, i: int)
    requires
        wf_expr(e),
        stands_at(t, i, print_expr(e)),
        ends_ok(t, i + print_expr(e).len()),
    ensures
        p_or(t, i) == Some((e, i + print_expr(e).len())),
    decreases e, 1int,
{
    match e {
        ExprModel::Identifier(_) => lemma_printed_leaf(e, t, i),
        ExprModel::Value(_) => lemma_printed_leaf(e, t, i),
        ExprModel::Function(_, _) => lemma_printed_function(e, t, i),
        ExprModel::Not(_) => lemma_printed_not(e, t, i),
        ExprModel::Compare(_, _, _) => lemma_printed_compare(e, t, i),
        ExprModel::In(_, _) => lemma_printed_in(e, t, i),
        ExprModel::And(_, _) => lemma_printed_and(e, t, i),
        ExprModel::Or(_, _) => lemma_printed_or(e, t, i),
    }
}

proof fn lemma_printed_leaf(e: ExprModel, t: Seq<TokenModel>, i: int)
    requires
        e is Identifier || e is Value,
        wf_expr(e),
        stands_at(t, i, print_expr(e)),
        ends_ok(t, i + print_expr(e).len()),
    ensures
        p_or(t, i) == Some((e, i + print_expr(e).len())),
{
    let n = print_expr(e).len() as int;
    lemma_print_nonempty(e);
    lemma_ends_ok_plain(t, i + n);
    match e {
        ExprModel::Identifier(w) => {
            lemma_stands_token(t, i, TokenModel::Word(w));
            assert(!tok_at(t, i + 1, TokenModel::LParen));
            assert(p_atom(t, i) == Some((e, i + 1)));
            lemma_atom_alone(t, i, e, i + 1);
            lemma_lift(t, i, e, i + 1);
        },
        ExprModel::Value(v) => {
            match v {
                ValueModel::String(s) => {
                    lemma_stands_token(t, i, TokenModel::Quoted(s));
                    assert(p_atom(t, i) == Some((e, i + 1)));
                },
                _ => {
                    lemma_stands_token(t, i, TokenModel::Word(literal_word(v)));
                    assert(p_atom(t, i) == Some((e, i + 1)));
                },
            }
            lemma_atom_alone(t, i, e, i + 1);
            lemma_lift(t, i, e, i + 1);
        },
        _ => {},
    }
}

proof fn lemma_printed_function(e: ExprModel, t: Seq<TokenModel>, i: int)
    requires
        e is Function,
        wf_expr(e),
        stands_at(t, i, print_expr(e)),
        ends_ok(t, i + print_expr(e).len()),
    ensures
        p_or(t, i) == Some((e, i + print_expr(e).len())),
    decreases e, 0int,
{
    let n = print_expr(e).len() as int;
    lemma_print_nonempty(e);
    lemma_ends_ok_plain(t, i + n);
    match e {
        ExprModel::Function(name, args) => {
            let pl = print_list(args);
            assert(print_expr(e) == seq![TokenModel::Word(name)] + seq![TokenModel::LParen] + pl + seq![
                TokenModel::RParen,
            ]);
            lemma_stands_split(t, i, seq![TokenModel::Word(name)] + seq![TokenModel::LParen] + pl, seq![TokenModel::RParen]);
            lemma_stands_split(t, i, seq![TokenModel::Word(name)] + seq![TokenModel::LParen], pl);
            lemma_stands_split(t, i, seq![TokenModel::Word(name)], seq![TokenModel::LParen]);
            lemma_stands_token(t, i, TokenModel::Word(name));
            lemma_stands_token(t, i + 1, TokenModel::LParen);
            lemma_stands_token(t, i + 2 + pl.len(), TokenModel::RParen);
            lemma_parse_list(args, t, i + 2);
            assert(p_atom(t, i) == Some((e, i + n)));
            lemma_atom_alone(t, i, e, i + n);
            lemma_lift(t, i, e, i + n);
        },
        _ => {},
    }
}

proof fn lemma_printed_not(e: ExprModel, t: Seq<TokenModel>, i: int)
    requires
        e is Not,
        wf_expr(e),
        stands_at(t, i, print_expr(e)),
        ends_ok(t, i + print_expr(e).len()),
    ensures
        p_or(t, i) == Some((e, i + print_expr(e).len())),
    decreases e, 0int,
{
    let n = print_expr(e).len() as int;
    lemma_print_nonempty(e);
    lemma_ends_ok_plain(t, i + n);
    match e {
        ExprModel::Not(x) => {
            let px = print_expr(*x);
            assert(print_expr(e) == seq![TokenModel::Word("not"@)] + (seq![TokenModel::LParen] + px + seq![
                TokenModel::RParen,
            ]));
            lemma_stands_split(t, i, seq![TokenModel::Word("not"@)], paren(px));
            lemma_stands_token(t, i, TokenModel::Word("not"@));
            lemma_paren_atom(*x, t, i + 1);
            lemma_print_nonempty(*x);
            lemma_atom_alone(t, i + 1, *x, i + n);
            assert(p_unary(t, i) == Some((e, i + n)));
            lemma_lift(t, i, e, i + n);
        },
        _ => {},
    }
}

proof fn lemma_printed_compare(e: ExprModel, t: Seq<TokenModel>, i: int)
    requires
        e is Compare,
        wf_expr(e),
        stands_at(t, i, print_expr(e)),
        ends_ok(t, i + print_expr(e).len()),
    ensures
        p_or(t, i) == Some((e, i + print_expr(e).len())),
    decreases e, 0int,
{
    let n = print_expr(e).len() as int;
    lemma_print_nonempty(e);
    lemma_ends_ok_plain(t, i + n);
    match e {
        ExprModel::Compare(l, op, r) => {
            let pl = paren(print_expr(*l));
            let pr = paren(print_expr(*r));
            let w = TokenModel::Word(compare_op_word(op));
            assert(print_expr(e) == pl + seq![w] + pr);
            lemma_stands_split(t, i, pl + seq![w], pr);
            lemma_stands_split(t, i, pl, seq![w]);
            lemma_stands_token(t, i + pl.len(), w);
            lemma_paren_atom(*l, t, i);
            lemma_paren_atom(*r, t, i + pl.len() + 1);
            assert(compare_op_of(t[i + pl.len()]) == Some(op)) by {
                lemma_words_distinct();
            }
            assert(p_comparison(t, i) == Some((e, i + n)));
            assert(p_unary(t, i) == Some((e, i + n)));
            lemma_lift(t, i, e, i + n);
        },
        _ => {},
    }
}

proof fn lemma_printed_in(e: ExprModel, t: Seq<TokenModel>, i: int)
    requires
        e is In,
        wf_expr(e),
        stands_at(t, i, print_expr(e)),
        ends_ok(t, i + print_expr(e).len()),
    ensures
        p_or(t, i) == Some((e, i + print_expr(e).len())),
    decreases e, 0int,
{
    let n = print_expr(e).len() as int;
    lemma_print_nonempty(e);
    lemma_ends_ok_plain(t, i + n);
    match e {
        ExprModel::In(l, items) => {
            let pl = paren(print_expr(*l));
            let li = print_list(items);
            let w = TokenModel::Word("in"@);
            assert(print_expr(e) == pl + seq![w] + seq![TokenModel::LParen] + li + seq![TokenModel::RParen]);
            lemma_stands_split(t, i, pl + seq![w] + seq![TokenModel::LParen] + li, seq![TokenModel::RParen]);
            lemma_stands_split(t, i, pl + seq![w] + seq![TokenModel::LParen], li);
            lemma_stands_split(t, i, pl + seq![w], seq![TokenModel::LParen]);
            lemma_stands_split(t, i, pl, seq![w]);
            lemma_stands_token(t, i + pl.len(), w);
            lemma_stands_token(t, i + pl.len() + 1, TokenModel::LParen);
            lemma_stands_token(t, i + pl.len() + 2 + li.len(), TokenModel::RParen);
            lemma_paren_atom(*l, t, i);
            lemma_parse_list(items, t, i + pl.len() + 2);
            assert(compare_op_of(t[i + pl.len()]) is None) by {
                lemma_words_distinct();
            }
            assert(p_comparison(t, i) == Some((e, i + n)));
            assert(p_unary(t, i) == Some((e, i + n)));
            lemma_lift(t, i, e, i + n);
        },
        _ => {},
    }
}

proof fn lemma_printed_and(e: ExprModel, t: Seq<TokenModel>, i: int)
    requires
        e is And,
        wf_expr(e),
        stands_at(t, i, print_expr(e)),
        ends_ok(t, i + print_expr(e).len()),
    ensures
        p_or(t, i) == Some((e, i + print_expr(e).len())),
    decreases e, 0int,
{
    let n = print_expr(e).len() as int;
    lemma_print_nonempty(e);
    lemma_ends_ok_plain(t, i + n);
    match e {
        ExprModel::And(l, r) => {
            let pl = paren(print_expr(*l));
            let pr = paren(print_expr(*r));
            let w = TokenModel::Word("and"@);
            assert(print_expr(e) == pl + seq![w] + pr);
            lemma_stands_split(t, i, pl + seq![w], pr);
            lemma_stands_split(t, i, pl, seq![w]);
            lemma_stands_token(t, i + pl.len(), w);
            lemma_paren_atom(*l, t, i);
            lemma_paren_atom(*r, t, i + pl.len() + 1);
            assert(compare_op_of(t[i + pl.len()]) is None && !tok_is(t, i + pl.len(), "in"@)) by {
                lemma_words_distinct();
            }
            assert(!tok_is(t, i, "not"@) && !tok_is(t, i + pl.len() + 1, "not"@));
            lemma_atom_alone(t, i, *l, i + pl.len());
            lemma_atom_alone(t, i + pl.len() + 1, *r, i + n);
            assert(p_and_tail(t, i + n, e) == Some((e, i + n)));
            assert(p_and_tail(t, i + pl.len(), *l) == Some((e, i + n)));
            assert(p_and(t, i) == Some((e, i + n)));
            assert(p_or_tail(t, i + n, e) == Some((e, i + n)));
        },
        _ => {},
    }
}

proof fn lemma_printed_or(e: ExprModel, t: Seq<TokenModel>, i: int)
    requires
        e is Or,
        wf_expr(e),
        stands_at(t, i, print_expr(e)),
        ends_ok(t, i + print_expr(e).len()),
    ensures
        p_or(t, i) == Some((e, i + print_expr(e).len())),
    decreases e, 0int,
{
    let n = print_expr(e).len() as int;
    lemma_print_nonempty(e);
    lemma_ends_ok_plain(t, i + n);
    match e {
        ExprModel::Or(l, r) => {
            let pl = paren(print_expr(*l));
            let pr = paren(print_expr(*r));
            let w = TokenModel::Word("or"@);
            assert(print_expr(e) == pl + seq![w] + pr);
            lemma_stands_split(t, i, pl + seq![w], pr);
            lemma_stands_split(t, i, pl, seq![w]);
            lemma_stands_token(t, i + pl.len(), w);
            lemma_paren_atom(*l, t, i);
            lemma_paren_atom(*r, t, i + pl.len() + 1);
            assert(compare_op_of(t[i + pl.len()]) is None && !tok_is(t, i + pl.len(), "in"@) && !tok_is(
                t,
                i + pl.len(),
                "and"@,
            )) by {
                lemma_words_distinct();
            }
            assert(!tok_is(t, i, "not"@) && !tok_is(t, i + pl.len() + 1, "not"@));
            lemma_atom_alone(t, i, *l, i + pl.len());
            lemma_atom_alone(t, i + pl.len() + 1, *r, i + n);
            assert(p_and_tail(t, i + pl.len(), *l) == Some((*l, i + pl.len())));
            assert(p_and(t, i) == Some((*l, i + pl.len())));
            assert(p_and_tail(t, i + n, *r) == Some((*r, i + n)));
            assert(p_and(t, i + pl.len() + 1) == Some((*r, i + n)));
            assert(p_or_tail(t, i + n, e) == Some((e, i + n)));
            assert(p_or_tail(t, i + pl.len(), *l) == Some((e, i + n)));
        },
        _ => {},
    }
}

/// A parenthesized well-formed expression is an atom.
proof fn lemma_paren_atom(x: ExprModel, t: Seq<TokenModel>, i: int)
    requires
        wf_expr(x),
        stands_at(t, i, paren(print_expr(x))),
    ensures
        p_atom(t, i) == Some((x, i + print_expr(x).len() + 2)),
    decreases x, 2int,
{
    let px = print_expr(x);
    lemma_stands_split(t, i, seq![TokenModel::LParen] + px, seq![TokenModel::RParen]);
    lemma_stands_split(t, i, seq![TokenModel::LParen], px);
    lemma_stands_token(t, i, TokenModel::LParen);
    lemma_stands_token(t, i + 1 + px.len(), TokenModel::RParen);
    lemma_parse_printed(x, t, i + 1);
}

/// The canonical tokens of a well-formed list followed by `)` parse back to it.
proof fn lemma_parse_list(items: Seq<ExprModel>, t: Seq<TokenModel>, i: int)
    requires
        wf_list(items),
        stands_at(t, i, print_list(items)),
        tok_at(t, i + print_list(items).len(), TokenModel::RParen),
    ensures
        p_list(t, i) == Some((items, i + print_list(items).len() + 1)),
    decreases items, 3int,
{
    if items.len() == 0 {
        assert(items =~= Seq::<ExprModel>::empty());
    } else {
        lemma_print_nonempty(items[0]);
        assert(!tok_at(t, i, TokenModel::RParen)) by {
            lemma_print_starts(items[0]);
            lemma_print_list_prefix(items);
            assert(t[i] == print_list(items)[0]);
        }
        lemma_parse_items(items, t, i, seq![]);
        assert(seq![] + items =~= items);
    }
}

/// Parsing the items of a non-empty list after the items `acc`.
proof fn lemma_parse_items(items: Seq<ExprModel>, t: Seq<TokenModel>, i: int, acc: Seq<ExprModel>)
    requires
        items.len() > 0,
        wf_list(items),
        stands_at(t, i, print_list(items)),
        tok_at(t, i + print_list(items).len(), TokenModel::RParen),
    ensures
        p_items(t, i, acc) == Some((acc + items, i + print_list(items).len() + 1)),
    decreases items, 2int,
{
    let first = items[0];
    let pf = print_expr(first);
    lemma_print_nonempty(first);
    if items.len() == 1 {
        assert(print_list(items) == pf);
        lemma_parse_printed(first, t, i);
        assert(acc.push(first) =~= acc + items);
    } else {
        let rest = items.drop_first();
        assert(print_list(items) == pf + seq![TokenModel::Comma] + print_list(rest));
        lemma_stands_split(t, i, pf + seq![TokenModel::Comma], print_list(rest));
        lemma_stands_split(t, i, pf, seq![TokenModel::Comma]);
        lemma_stands_token(t, i + pf.len(), TokenModel::Comma);
        lemma_parse_printed(first, t, i);
        lemma_parse_items(rest, t, i + pf.len() + 1, acc.push(first));
        assert(acc.push(first) + rest =~= acc + items);
    }
}

/// Canonical tokens are never empty.
proof fn lemma_print_nonempty(e: ExprModel)
    ensures
        print_expr(e).len() >= 1,
{
}

/// What the canonical tokens of an expression start with: a word, a quoted
/// string or `(`, never `)`.
proof fn lemma_print_starts(e: ExprModel)
    ensures
        print_expr(e)[0] != TokenModel::RParen,
{
}

/// A non-empty list's tokens start as its first item's tokens.
proof fn lemma_print_list_prefix(items: Seq<ExprModel>)
    requires
        items.len() > 0,
    ensures
        print_list(items)[0] == print_expr(items[0])[0],
{
    lemma_print_nonempty(items[0]);
}

} // verus!
