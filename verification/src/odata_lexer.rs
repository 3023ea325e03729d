//! Tokens of `OData` filter text.

use vstd::prelude::*;

verus! {

/// A token of filter text: punctuation, a quoted string (quotes removed,
/// doubled quotes collapsed) or a word (keyword, literal or identifier).
#[derive(Debug)]
pub enum Token {
    LParen,
    RParen,
    Comma,
    Quoted(Vec<char>),
    Word(Vec<char>),
}

/// Mathematical model of a `Token`.
pub enum TokenModel {
    LParen,
    RParen,
    Comma,
    Quoted(Seq<char>),
    Word(Seq<char>),
}

impl View for Token {
    type V = TokenModel;

    open spec fn view(&self) -> TokenModel {
        match self {
            Token::LParen => TokenModel::LParen,
            Token::RParen => TokenModel::RParen,
            Token::Comma => TokenModel::Comma,
            Token::Quoted(s) => TokenModel::Quoted(s@),
            Token::Word(s) => TokenModel::Word(s@),
        }
    }
}

/// The models of a sequence of tokens.
pub open spec fn tokens_model(v: Seq<Token>) -> Seq<TokenModel> {
    v.map_values(|t: Token| t@)
}

/// Blanks that separate tokens.
pub open spec fn is_space(c: char) -> bool {
    c == ' ' || c == '\t' || c == '\n' || c == '\r'
}

pub open spec fn is_digit(c: char) -> bool {
    '0' <= c && c <= '9'
}

pub open spec fn is_alpha(c: char) -> bool {
    ('a' <= c && c <= 'z') || ('A' <= c && c <= 'Z')
}

/// Characters that may make up a word.
pub open spec fn is_word_char(c: char) -> bool {
    is_alpha(c) || is_digit(c) || c == '_' || c == '-' || c == '+' || c == '.' || c == ':' || c == '/'
}

/// A word that the lexer reads as one token: a non-empty run of word characters.
pub open spec fn is_word(w: Seq<char>) -> bool {
    w.len() > 0 && forall|i: int| 0 <= i < w.len() ==> is_word_char(#[trigger] w[i])
}

/// The end of the run of word characters that starts at `i`.
pub open spec fn word_end(s: Seq<char>, i: int) -> int
    decreases s.len() - i,
{
    if i < 0 || i >= s.len() {
        s.len() as int
    } else if is_word_char(s[i]) {
        word_end(s, i + 1)
    } else {
        i
    }
}

pub proof fn lemma_word_end(s: Seq<char>, i: int)
    requires
        0 <= i <= s.len(),
    ensures
        i <= word_end(s, i) <= s.len(),
        forall|k: int| i <= k < word_end(s, i) ==> is_word_char(#[trigger] s[k]),
        word_end(s, i) < s.len() ==> !is_word_char(s[word_end(s, i)]),
    decreases s.len() - i,
{
    if i < s.len() && is_word_char(s[i]) {
        lemma_word_end(s, i + 1);
    }
}

/// The body of a quoted string whose opening quote precedes `i`, and the
/// position after its closing quote; a doubled quote stands for one quote.
pub open spec fn quoted_body(s: Seq<char>, i: int) -> Option<(Seq<char>, int)>
    decreases s.len() - i,
{
    if i < 0 || i >= s.len() {
        None
    } else if s[i] == '\'' {
        if i + 1 < s.len() && s[i + 1] == '\'' {
            match quoted_body(s, i + 2) {
                Some((t, j)) => Some((seq!['\''] + t, j)),
                None => None,
            }
        } else {
            Some((seq![], i + 1))
        }
    } else {
        match quoted_body(s, i + 1) {
            Some((t, j)) => Some((seq![s[i]] + t, j)),
            None => None,
        }
    }
}

pub proof fn lemma_quoted_body(s: Seq<char>, i: int)
    requires
        0 <= i,
    ensures
        quoted_body(s, i) matches Some((t, j)) ==> i < j <= s.len(),
    decreases s.len() - i,
{
    if 0 <= i < s.len() {
        if s[i] == '\'' {
            if i + 1 < s.len() && s[i + 1] == '\'' {
                lemma_quoted_body(s, i + 2);
            }
        } else {
            lemma_quoted_body(s, i + 1);
        }
    }
}

/// `t` in front of the tokens in `rest`, if any.
pub open spec fn cons_tokens(t: Seq<TokenModel>, rest: Option<Seq<TokenModel>>) -> Option<Seq<TokenModel>> {
    match rest {
        Some(r) => Some(t + r),
        None => None,
    }
}

/// The tokens of `s` from position `i` on, or `None` when some character
/// cannot start a token or a quoted string is not closed.
pub open spec fn lex_from(s: Seq<char>, i: int) -> Option<Seq<TokenModel>>
    decreases s.len() - i,
{
    if i < 0 || i >= s.len() {
        Some(seq![])
    } else {
        let c = s[i];
        if is_space(c) {
            lex_from(s, i + 1)
        } else if c == '(' {
            cons_tokens(seq![TokenModel::LParen], lex_from(s, i + 1))
        } else if c == ')' {
            cons_tokens(seq![TokenModel::RParen], lex_from(s, i + 1))
        } else if c == ',' {
            cons_tokens(seq![TokenModel::Comma], lex_from(s, i + 1))
        } else if c == '\'' {
            match quoted_body(s, i + 1) {
                None => None,
                Some((t, j)) => {
                    proof {
                        lemma_quoted_body(s, i + 1);
                    }
                    cons_tokens(seq![TokenModel::Quoted(t)], lex_from(s, j))
                },
            }
        } else if is_word_char(c) {
            let j = word_end(s, i + 1);
            proof {
                lemma_word_end(s, i + 1);
            }
            cons_tokens(seq![TokenModel::Word(s.subrange(i, j))], lex_from(s, j))
        } else {
            None
        }
    }
}

/// The tokens of the whole text `s`.
pub open spec fn lex_spec(s: Seq<char>) -> Option<Seq<TokenModel>> {
    lex_from(s, 0)
}

fn space(c: char) -> (r: bool)
    ensures
        r == is_space(c),
{
    c == ' ' || c == '\t' || c == '\n' || c == '\r'
}

pub fn digit(c: char) -> (r: bool)
    ensures
        r == is_digit(c),
{
    '0' <= c && c <= '9'
}

pub fn alpha(c: char) -> (r: bool)
    ensures
        r == is_alpha(c),
{
    ('a' <= c && c <= 'z') || ('A' <= c && c <= 'Z')
}

fn word_char(c: char) -> (r: bool)
    ensures
        r == is_word_char(c),
{
    alpha(c) || digit(c) || c == '_' || c == '-' || c == '+' || c == '.' || c == ':' || c == '/'
}

fn scan_word(s: &Vec<char>, i: usize) -> (j: usize)
    requires
        i <= s@.len(),
    ensures
        j == word_end(s@, i as int),
{
    let mut j = i;
    while j < s.len() && word_char(s[j])
        invariant
            i <= j <= s@.len(),
            word_end(s@, i as int) == word_end(s@, j as int),
        decreases s.len() - j,
    {
        j += 1;
    }
    j
}

fn scan_quoted(s: &Vec<char>, i: usize) -> (r: Option<(Vec<char>, usize)>)
    requires
        i <= s@.len(),
    ensures
        match r {
            Some((t, j)) => quoted_body(s@, i as int) == Some((t@, j as int)),
            None => quoted_body(s@, i as int) is None,
        },
{
    let mut acc: Vec<char> = Vec::new();
    let mut k = i;
    while k < s.len()
        invariant
            i <= k <= s@.len(),
            quoted_body(s@, i as int) == match quoted_body(s@, k as int) {
                Some((t, j)) => Some((acc@ + t, j)),
                None => None,
            },
        decreases s.len() - k,
    {
        if s[k] == '\'' {
            if k + 1 < s.len() && s[k + 1] == '\'' {
                proof {
                    assert(forall|t: Seq<char>| (acc@ + (seq!['\''] + t)) =~= (acc@.push('\'') + t));
                }
                acc.push('\'');
                k += 2;
            } else {
                assert(acc@ + Seq::<char>::empty() =~= acc@);
                return Some((acc, k + 1));
            }
        } else {
            let c = s[k];
            proof {
                assert(forall|t: Seq<char>| (acc@ + (seq![c] + t)) =~= (acc@.push(c) + t));
            }
            acc.push(c);
            k += 1;
        }
    }
    None
}

proof fn lemma_cons_tokens(a: Seq<TokenModel>, b: Seq<TokenModel>, rest: Option<Seq<TokenModel>>)
    ensures
        cons_tokens(a, cons_tokens(b, rest)) == cons_tokens(a + b, rest),
{
    if let Some(r) = rest {
        assert(a + (b + r) =~= (a + b) + r);
    }
}

fn copy_range(s: &Vec<char>, lo: usize, hi: usize) -> (r: Vec<char>)
    requires
        lo <= hi <= s@.len(),
    ensures
        r@ == s@.subrange(lo as int, hi as int),
{
    let mut r: Vec<char> = Vec::new();
    let mut k = lo;
    while k < hi
        invariant
            lo <= k <= hi <= s@.len(),
            r@ == s@.subrange(lo as int, k as int),
        decreases hi - k,
    {
        r.push(s[k]);
        assert(s@.subrange(lo as int, k + 1) == s@.subrange(lo as int, k as int).push(s@[k as int]));
        k += 1;
    }
    r
}

/// Splits filter text into tokens.
pub fn lex(s: &Vec<char>) -> (r: Option<Vec<Token>>)
    ensures
        match r {
            Some(v) => lex_spec(s@) == Some(tokens_model(v@)),
            None => lex_spec(s@) is None,
        },
{
    let mut toks: Vec<Token> = Vec::new();
    let mut i: usize = 0;
    assert(tokens_model(toks@) + Seq::<TokenModel>::empty() =~= Seq::<TokenModel>::empty());
    while i < s.len()
        invariant
            i <= s@.len(),
            lex_spec(s@) == cons_tokens(tokens_model(toks@), lex_from(s@, i as int)),
        decreases s.len() - i,
    {
        let ghost prev = toks@;
        let c = s[i];
        if space(c) {
            i += 1;
        } else if c == '(' || c == ')' || c == ',' {
            let t = if c == '(' {
                Token::LParen
            } else if c == ')' {
                Token::RParen
            } else {
                Token::Comma
            };
            proof {
                lemma_cons_tokens(tokens_model(prev), seq![t@], lex_from(s@, i + 1));
            }
            toks.push(t);
            assert(tokens_model(toks@) =~= tokens_model(prev) + seq![t@]);
            i += 1;
        } else if c == '\'' {
            match scan_quoted(s, i + 1) {
                None => {
                    return None;
                },
                Some((text, j)) => {
                    proof {
                        lemma_quoted_body(s@, i + 1);
                        lemma_cons_tokens(tokens_model(prev), seq![TokenModel::Quoted(text@)], lex_from(s@, j as int));
                    }
                    let t = Token::Quoted(text);
                    toks.push(t);
                    assert(tokens_model(toks@) =~= tokens_model(prev) + seq![t@]);
                    i = j;
                },
            }
        } else if word_char(c) {
            let j = scan_word(s, i + 1);
            proof {
                lemma_word_end(s@, i + 1);
            }
            let w = copy_range(s, i, j);
            proof {
                lemma_cons_tokens(tokens_model(prev), seq![TokenModel::Word(w@)], lex_from(s@, j as int));
            }
            let t = Token::Word(w);
            toks.push(t);
            assert(tokens_model(toks@) =~= tokens_model(prev) + seq![t@]);
            i = j;
        } else {
            return None;
        }
    }
    assert(tokens_model(toks@) + Seq::<TokenModel>::empty() =~= tokens_model(toks@));
    Some(toks)
}

} // verus!
