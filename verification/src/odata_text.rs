//! The canonical text of an expression, and the law that parsing it gives
//! the expression back.

use vstd::prelude::*;

use crate::ast::ExprModel;
use crate::odata_filters::{p_or, parse_spec};
use crate::odata_lexer::{
    cons_tokens, is_space, is_word, is_word_char, lemma_quoted_body, lemma_word_end, lex_from, lex_spec, quoted_body,
    word_end, TokenModel,
};
use crate::ast::{CompareOperator, ValueModel};
use crate::odata_print::{
    compare_op_word, lemma_parse_printed, literal_word, paren, plain_name, print_expr, print_list, stands_at,
    wf_expr, wf_list,
};
use crate::odata_words::{
    all_digits, classify_literal, fits_char, fits_pattern, is_datetime_text, is_number_text, is_unsigned_number,
};

verus! {

/// `s` with every quote doubled, as it stands between the quotes of a string.
pub open spec fn quote_escaped(s: Seq<char>) -> Seq<char>
    decreases s.len(),
{
    if s.len() == 0 {
        seq![]
    } else {
        let head = if s[0] == '\'' {
            seq!['\'', '\'']
        } else {
            seq![s[0]]
        };
        head + quote_escaped(s.drop_first())
    }
}

/// The text of a token, followed by a blank.
pub open spec fn token_text(t: TokenModel) -> Seq<char> {
    match t {
        TokenModel::LParen => seq!['(', ' '],
        TokenModel::RParen => seq![')', ' '],
        TokenModel::Comma => seq![',', ' '],
        TokenModel::Quoted(s) => seq!['\''] + quote_escaped(s) + seq!['\'', ' '],
        TokenModel::Word(w) => w + seq![' '],
    }
}

/// The text of a sequence of tokens.
pub open spec fn tokens_text(ts: Seq<TokenModel>) -> Seq<char>
    decreases ts.len(),
{
    if ts.len() == 0 {
        seq![]
    } else {
        token_text(ts[0]) + tokens_text(ts.drop_first())
    }
}

/// The canonical text of an expression.
pub open spec fn expr_text(e: ExprModel) -> Seq<char> {
    tokens_text(print_expr(e))
}

/// Whether every word among the tokens `ts` is read by the lexer as one token.
pub open spec fn words_ok(ts: Seq<TokenModel>) -> bool {
    forall|k: int| 0 <= k < ts.len() ==> (#[trigger] ts[k] matches TokenModel::Word(w) ==> is_word(w))
}

/// `o` with its position moved on by `n`.
pub open spec fn shift_body(o: Option<(Seq<char>, int)>, n: int) -> Option<(Seq<char>, int)> {
    match o {
        Some((t, j)) => Some((t, j + n)),
        None => None,
    }
}

proof fn lemma_word_end_shift(p: Seq<char>, q: Seq<char>, k: int)
    requires
        0 <= k,
    ensures
        word_end(p + q, p.len() + k) == p.len() + word_end(q, k),
    decreases q.len() - k,
{
    if k < q.len() {
        assert((p + q)[p.len() + k] == q[k]);
        if is_word_char(q[k]) {
            lemma_word_end_shift(p, q, k + 1);
        }
    }
}

proof fn lemma_quoted_body_shift(p: Seq<char>, q: Seq<char>, k: int)
    requires
        0 <= k,
    ensures
        quoted_body(p + q, p.len() + k) == shift_body(quoted_body(q, k), p.len() as int),
    decreases q.len() - k,
{
    let s = p + q;
    if k < q.len() {
        assert(s[p.len() + k] == q[k]);
        if q[k] == '\'' {
            if k + 1 < q.len() {
                assert(s[p.len() + k + 1] == q[k + 1]);
                if q[k + 1] == '\'' {
                    lemma_quoted_body_shift(p, q, k + 2);
                }
            }
        } else {
            lemma_quoted_body_shift(p, q, k + 1);
        }
    }
}

/// Lexing does not look behind the position it starts at.
proof fn lemma_lex_shift(p: Seq<char>, q: Seq<char>, k: int)
    requires
        0 <= k,
    ensures
        lex_from(p + q, p.len() + k) == lex_from(q, k),
    decreases q.len() - k,
{
    let s = p + q;
    if k < q.len() {
        let c = q[k];
        assert(s[p.len() + k] == c);
        if is_space(c) || c == '(' || c == ')' || c == ',' {
            lemma_lex_shift(p, q, k + 1);
        } else if c == '\'' {
            lemma_quoted_body_shift(p, q, k + 1);
            lemma_quoted_body(q, k + 1);
            if let Some((_, j)) = quoted_body(q, k + 1) {
                lemma_lex_shift(p, q, j);
            }
        } else if is_word_char(c) {
            lemma_word_end_shift(p, q, k + 1);
            lemma_word_end(q, k + 1);
            let j = word_end(q, k + 1);
            assert(s.subrange(p.len() + k, p.len() + j) =~= q.subrange(k, j));
            lemma_lex_shift(p, q, j);
        }
    }
}

/// A run of word characters from `i` up to a character that is not one ends at that character.
proof fn lemma_word_end_at(s: Seq<char>, i: int, n: int)
    requires
        0 <= i <= n < s.len(),
        forall|k: int| i <= k < n ==> is_word_char(#[trigger] s[k]),
        !is_word_char(s[n]),
    ensures
        word_end(s, i) == n,
    decreases n - i,
{
    if i < n {
        lemma_word_end_at(s, i + 1, n);
    }
}

/// The escaped body of a string, its closing quote and a text that does not
/// start with a quote read back as the string.
proof fn lemma_quoted_escaped(q: Seq<char>, m: Seq<char>)
    requires
        m.len() > 0,
        m[0] != '\'',
    ensures
        quoted_body(quote_escaped(q) + seq!['\''] + m, 0) == Some((q, quote_escaped(q).len() as int + 1)),
    decreases q.len(),
{
    let s = quote_escaped(q) + seq!['\''] + m;
    if q.len() == 0 {
        assert(quote_escaped(q) =~= Seq::<char>::empty());
        assert(s[0] == '\'');
        assert(s[1] == m[0]);
    } else {
        let rest = q.drop_first();
        let tail = quote_escaped(rest) + seq!['\''] + m;
        lemma_quoted_escaped(rest, m);
        if q[0] == '\'' {
            let head = seq!['\'', '\''];
            assert(s =~= head + tail);
            assert(s[0] == '\'' && s[1] == '\'');
            lemma_quoted_body_shift(head, tail, 0);
            assert(seq!['\''] + rest =~= q);
        } else {
            let head = seq![q[0]];
            assert(s =~= head + tail);
            assert(s[0] == q[0]);
            lemma_quoted_body_shift(head, tail, 0);
            assert(seq![s[0]] + rest =~= q);
        }
    }
}

/// A word and a blank, then any text, lex as the word, then that text.
proof fn lemma_lex_word(w: Seq<char>, r: Seq<char>)
    requires
        is_word(w),
    ensures
        lex_from(w + seq![' '] + r, 0) == cons_tokens(seq![TokenModel::Word(w)], lex_from(r, 0)),
{
    let x = w + seq![' '];
    let s = x + r;
    let n = w.len() as int;
    lemma_lex_shift(x, r, 0);
    assert(s[n] == ' ');
    assert forall|k: int| 1 <= k < n implies is_word_char(#[trigger] s[k]) by {
        assert(s[k] == w[k]);
    }
    assert(s[0] == w[0]);
    lemma_word_end_at(s, 1, n);
    assert(s.subrange(0, n) =~= w);
    assert(lex_from(s, n) == lex_from(s, n + 1));
}

/// The text of a token, then any text, lexes as the token, then that text.
proof fn lemma_lex_token(tk: TokenModel, r: Seq<char>)
    requires
        tk matches TokenModel::Word(w) ==> is_word(w),
    ensures
        lex_from(token_text(tk) + r, 0) == cons_tokens(seq![tk], lex_from(r, 0)),
{
    let x = token_text(tk);
    let s = x + r;
    lemma_lex_shift(x, r, 0);
    match tk {
        TokenModel::Word(w) => {
            lemma_lex_word(w, r);
        },
        TokenModel::Quoted(q) => {
            let e = quote_escaped(q);
            let m = seq![' '] + r;
            assert(s =~= seq!['\''] + (e + seq!['\''] + m));
            lemma_quoted_escaped(q, m);
            lemma_quoted_body_shift(seq!['\''], e + seq!['\''] + m, 0);
            assert(s[e.len() as int + 2] == ' ');
            assert(lex_from(s, e.len() as int + 2) == lex_from(s, e.len() as int + 3));
        },
        _ => {
            assert(s[1] == ' ');
            assert(lex_from(s, 1) == lex_from(s, 2));
        },
    }
}

/// The text of tokens whose words are single words lexes back to the tokens.
proof fn lemma_lex_tokens(ts: Seq<TokenModel>)
    requires
        words_ok(ts),
    ensures
        lex_spec(tokens_text(ts)) == Some(ts),
    decreases ts.len(),
{
    if ts.len() > 0 {
        let rest = ts.drop_first();
        assert(words_ok(rest)) by {
            assert forall|k: int| 0 <= k < rest.len() implies (#[trigger] rest[k] matches TokenModel::Word(w)
                ==> is_word(w)) by {
                assert(rest[k] == ts[k + 1]);
            }
        }
        lemma_lex_tokens(rest);
        assert(ts[0] matches TokenModel::Word(w) ==> is_word(w));
        lemma_lex_token(ts[0], tokens_text(rest));
        assert(seq![ts[0]] + rest =~= ts);
    }
}

proof fn lemma_words_ok_cat(a: Seq<TokenModel>, b: Seq<TokenModel>)
    requires
        words_ok(a),
        words_ok(b),
    ensures
        words_ok(a + b),
{
    assert forall|k: int| 0 <= k < (a + b).len() implies (#[trigger] (a + b)[k] matches TokenModel::Word(w)
        ==> is_word(w)) by {
        if k < a.len() {
            assert((a + b)[k] == a[k]);
        } else {
            assert((a + b)[k] == b[k - a.len()]);
        }
    }
}

proof fn lemma_words_ok_paren(x: Seq<TokenModel>)
    requires
        words_ok(x),
    ensures
        words_ok(paren(x)),
{
    lemma_words_ok_cat(seq![TokenModel::LParen], x);
    lemma_words_ok_cat(seq![TokenModel::LParen] + x, seq![TokenModel::RParen]);
}

/// The operator words are single words.
proof fn lemma_operator_words()
    ensures
        is_word("not"@),
        is_word("and"@),
        is_word("or"@),
        is_word("in"@),
        forall|op: CompareOperator| is_word(#[trigger] compare_op_word(op)),
{
    reveal_strlit("not");
    reveal_strlit("and");
    reveal_strlit("or");
    reveal_strlit("in");
    reveal_strlit("eq");
    reveal_strlit("ne");
    reveal_strlit("gt");
    reveal_strlit("ge");
    reveal_strlit("lt");
    reveal_strlit("le");
    assert forall|op: CompareOperator| is_word(#[trigger] compare_op_word(op)) by {
        let w = compare_op_word(op);
        assert(w.len() == 2);
        assert forall|i: int| 0 <= i < w.len() implies is_word_char(#[trigger] w[i]) by {
            if i == 0 {
            } else {
            }
        }
    }
    assert forall|i: int| 0 <= i < 3 implies is_word_char(#[trigger] "not"@[i]) && is_word_char(
        #[trigger] "and"@[i],
    ) by {}
    assert forall|i: int| 0 <= i < 2 implies is_word_char(#[trigger] "or"@[i]) && is_word_char(
        #[trigger] "in"@[i],
    ) by {}
}

/// Whether every character of a pattern is `d`, `h` or a word character.
pub open spec fn pattern_ok(p: Seq<char>) -> bool
    decreases p.len(),
{
    p.len() == 0 || ((p[0] == 'd' || p[0] == 'h' || is_word_char(p[0])) && pattern_ok(p.drop_first()))
}

proof fn lemma_pattern_ok(p: Seq<char>, i: int)
    requires
        pattern_ok(p),
        0 <= i < p.len(),
    ensures
        p[i] == 'd' || p[i] == 'h' || is_word_char(p[i]),
    decreases i,
{
    if i > 0 {
        lemma_pattern_ok(p.drop_first(), i - 1);
    }
}

/// A word that fits a pattern of digits, hex digits and word characters is a single word.
proof fn lemma_fits_word(w: Seq<char>, p: Seq<char>)
    requires
        fits_pattern(w, p),
        pattern_ok(p),
        p.len() > 0,
    ensures
        is_word(w),
{
    assert forall|i: int| 0 <= i < w.len() implies is_word_char(#[trigger] w[i]) by {
        lemma_pattern_ok(p, i);
        assert(fits_char(w[i], p[i]));
    }
}

/// The patterns of literals are made of digits, hex digits and word characters.
proof fn lemma_literal_patterns()
    ensures
        "hhhhhhhh-hhhh-hhhh-hhhh-hhhhhhhhhhhh"@.len() > 0 && pattern_ok("hhhhhhhh-hhhh-hhhh-hhhh-hhhhhhhhhhhh"@),
        "dddd-dd-ddTdd:dd:ddZ"@.len() > 0 && pattern_ok("dddd-dd-ddTdd:dd:ddZ"@),
        "dddd-dd-ddTdd:ddZ"@.len() > 0 && pattern_ok("dddd-dd-ddTdd:ddZ"@),
        "dddd-dd-ddTdd:dd:dd+dd:dd"@.len() > 0 && pattern_ok("dddd-dd-ddTdd:dd:dd+dd:dd"@),
        "dddd-dd-ddTdd:dd:dd-dd:dd"@.len() > 0 && pattern_ok("dddd-dd-ddTdd:dd:dd-dd:dd"@),
        "dddd-dd-ddTdd:dd+dd:dd"@.len() > 0 && pattern_ok("dddd-dd-ddTdd:dd+dd:dd"@),
        "dddd-dd-ddTdd:dd-dd:dd"@.len() > 0 && pattern_ok("dddd-dd-ddTdd:dd-dd:dd"@),
        "dddd-dd-dd"@.len() > 0 && pattern_ok("dddd-dd-dd"@),
        "dd:dd:dd"@.len() > 0 && pattern_ok("dd:dd:dd"@),
        "dd:dd"@.len() > 0 && pattern_ok("dd:dd"@),
{
    reveal_with_fuel(pattern_ok, 37);
    reveal_strlit("hhhhhhhh-hhhh-hhhh-hhhh-hhhhhhhhhhhh");
    reveal_strlit("dddd-dd-ddTdd:dd:ddZ");
    reveal_strlit("dddd-dd-ddTdd:ddZ");
    reveal_strlit("dddd-dd-ddTdd:dd:dd+dd:dd");
    reveal_strlit("dddd-dd-ddTdd:dd:dd-dd:dd");
    reveal_strlit("dddd-dd-ddTdd:dd+dd:dd");
    reveal_strlit("dddd-dd-ddTdd:dd-dd:dd");
    reveal_strlit("dddd-dd-dd");
    reveal_strlit("dd:dd:dd");
    reveal_strlit("dd:dd");
}

/// A number is a single word.
proof fn lemma_number_word(w: Seq<char>)
    requires
        is_number_text(w),
    ensures
        is_word(w),
{
    let neg = w.len() > 0 && w[0] == '-';
    let b = if neg {
        w.drop_first()
    } else {
        w
    };
    let off: int = if neg {
        1
    } else {
        0
    };
    assert(is_unsigned_number(b));
    assert forall|i: int| 0 <= i < b.len() implies is_word_char(#[trigger] b[i]) by {
        if !all_digits(b) {
            let k = choose|k: int|
                0 < k < b.len() - 1 && #[trigger] b[k] == '.' && all_digits(b.subrange(0, k)) && all_digits(
                    b.subrange(k + 1, b.len() as int),
                );
            if i < k {
                assert(b.subrange(0, k)[i] == b[i]);
            } else if i > k {
                assert(b.subrange(k + 1, b.len() as int)[i - k - 1] == b[i]);
            }
        }
    }
    assert forall|i: int| 0 <= i < w.len() implies is_word_char(#[trigger] w[i]) by {
        if neg && i > 0 {
            assert(w[i] == b[i - 1]);
        } else if !neg {
            assert(w[i] == b[i]);
        }
    }
    assert(b.len() > 0);
}

/// A literal word that reads back as its literal is a single word.
proof fn lemma_literal_word(v: ValueModel)
    requires
        !(v is String),
        classify_literal(literal_word(v)) == Some(v),
    ensures
        is_word(literal_word(v)),
{
    let w = literal_word(v);
    lemma_literal_patterns();
    reveal_strlit("null");
    reveal_strlit("true");
    reveal_strlit("false");
    if w == "null"@ || w == "true"@ || w == "false"@ {
        assert forall|i: int| 0 <= i < w.len() implies is_word_char(#[trigger] w[i]) by {
            if w == "false"@ {
                assert(i == 0 || i == 1 || i == 2 || i == 3 || i == 4);
            } else {
                assert(i == 0 || i == 1 || i == 2 || i == 3);
            }
        }
    } else if is_number_text(w) {
        lemma_number_word(w);
    } else if fits_pattern(w, "hhhhhhhh-hhhh-hhhh-hhhh-hhhhhhhhhhhh"@) {
        lemma_fits_word(w, "hhhhhhhh-hhhh-hhhh-hhhh-hhhhhhhhhhhh"@);
    } else if is_datetime_text(w) {
        if fits_pattern(w, "dddd-dd-ddTdd:dd:ddZ"@) {
            lemma_fits_word(w, "dddd-dd-ddTdd:dd:ddZ"@);
        } else if fits_pattern(w, "dddd-dd-ddTdd:ddZ"@) {
            lemma_fits_word(w, "dddd-dd-ddTdd:ddZ"@);
        } else if fits_pattern(w, "dddd-dd-ddTdd:dd:dd+dd:dd"@) {
            lemma_fits_word(w, "dddd-dd-ddTdd:dd:dd+dd:dd"@);
        } else if fits_pattern(w, "dddd-dd-ddTdd:dd:dd-dd:dd"@) {
            lemma_fits_word(w, "dddd-dd-ddTdd:dd:dd-dd:dd"@);
        } else if fits_pattern(w, "dddd-dd-ddTdd:dd+dd:dd"@) {
            lemma_fits_word(w, "dddd-dd-ddTdd:dd+dd:dd"@);
        } else {
            lemma_fits_word(w, "dddd-dd-ddTdd:dd-dd:dd"@);
        }
    } else if fits_pattern(w, "dddd-dd-dd"@) {
        lemma_fits_word(w, "dddd-dd-dd"@);
    } else if fits_pattern(w, "dd:dd:dd"@) {
        lemma_fits_word(w, "dd:dd:dd"@);
    } else {
        lemma_fits_word(w, "dd:dd"@);
    }
}

/// A plain name is a single word.
proof fn lemma_plain_name_word(w: Seq<char>)
    requires
        plain_name(w),
    ensures
        is_word(w),
{
}

/// The tokens of a well-formed expression have only single words.
proof fn lemma_words_ok(e: ExprModel)
    requires
        wf_expr(e),
    ensures
        words_ok(print_expr(e)),
    decreases e, 0int,
{
    lemma_operator_words();
    match e {
        ExprModel::Identifier(w) => lemma_plain_name_word(w),
        ExprModel::Value(v) => {
            if !(v is String) {
                lemma_literal_word(v);
            }
        },
        ExprModel::Function(name, args) => {
            lemma_plain_name_word(name);
            lemma_words_ok_list(args);
            lemma_words_ok_paren(print_list(args));
            lemma_words_ok_cat(seq![TokenModel::Word(name)], paren(print_list(args)));
        },
        ExprModel::Not(x) => {
            lemma_words_ok(*x);
            lemma_words_ok_paren(print_expr(*x));
            lemma_words_ok_cat(seq![TokenModel::Word("not"@)], paren(print_expr(*x)));
        },
        ExprModel::And(l, r) => {
            lemma_words_ok(*l);
            lemma_words_ok(*r);
            lemma_words_ok_binary(print_expr(*l), "and"@, print_expr(*r));
        },
        ExprModel::Or(l, r) => {
            lemma_words_ok(*l);
            lemma_words_ok(*r);
            lemma_words_ok_binary(print_expr(*l), "or"@, print_expr(*r));
        },
        ExprModel::Compare(l, op, r) => {
            lemma_words_ok(*l);
            lemma_words_ok(*r);
            lemma_words_ok_binary(print_expr(*l), compare_op_word(op), print_expr(*r));
        },
        ExprModel::In(l, items) => {
            lemma_words_ok(*l);
            lemma_words_ok_paren(print_expr(*l));
            lemma_words_ok_list(items);
            lemma_words_ok_paren(print_list(items));
            lemma_words_ok_cat(paren(print_expr(*l)), seq![TokenModel::Word("in"@)]);
            lemma_words_ok_cat(paren(print_expr(*l)) + seq![TokenModel::Word("in"@)], paren(print_list(items)));
        },
    }
}

proof fn lemma_words_ok_binary(l: Seq<TokenModel>, k: Seq<char>, r: Seq<TokenModel>)
    requires
        words_ok(l),
        words_ok(r),
        is_word(k),
    ensures
        words_ok(paren(l) + seq![TokenModel::Word(k)] + paren(r)),
{
    lemma_words_ok_paren(l);
    lemma_words_ok_paren(r);
    lemma_words_ok_cat(paren(l), seq![TokenModel::Word(k)]);
    lemma_words_ok_cat(paren(l) + seq![TokenModel::Word(k)], paren(r));
}

proof fn lemma_words_ok_list(items: Seq<ExprModel>)
    requires
        wf_list(items),
    ensures
        words_ok(print_list(items)),
    decreases items, 0int,
{
    if items.len() == 1 {
        lemma_words_ok(items[0]);
    } else if items.len() > 1 {
        lemma_words_ok(items[0]);
        lemma_words_ok_list(items.drop_first());
        lemma_words_ok_cat(print_expr(items[0]), seq![TokenModel::Comma]);
        lemma_words_ok_cat(print_expr(items[0]) + seq![TokenModel::Comma], print_list(items.drop_first()));
    }
}

/// The canonical text of a well-formed expression parses back to the expression.
pub proof fn lemma_parse_text(e: ExprModel)
    requires
        wf_expr(e),
    ensures
        parse_spec(expr_text(e)) == Some(e),
{
    let t = print_expr(e);
    lemma_words_ok(e);
    lemma_lex_tokens(t);
    assert(t.subrange(0, t.len() as int) =~= t);
    assert(stands_at(t, 0, t));
    lemma_parse_printed(e, t, 0);
}

} // verus!
