//! What a word of filter text stands for: a keyword, a literal or an identifier.

use vstd::prelude::*;

use crate::ast::{CompareOperator, Value, ValueModel};
use crate::odata_lexer::{alpha, digit, is_alpha, is_digit, TokenModel};
use crate::text::{chars_eq_str, chars_of, string_from_chars};

verus! {

pub open spec fn is_hex(c: char) -> bool {
    is_digit(c) || ('a' <= c && c <= 'f') || ('A' <= c && c <= 'F')
}

/// Whether `c` fits pattern character `p`: `d` stands for a decimal digit,
/// `h` for a hexadecimal digit, any other character for itself.
pub open spec fn fits_char(c: char, p: char) -> bool {
    if p == 'd' {
        is_digit(c)
    } else if p == 'h' {
        is_hex(c)
    } else {
        c == p
    }
}

/// Whether `w` fits the pattern `p` character by character.
pub open spec fn fits_pattern(w: Seq<char>, p: Seq<char>) -> bool {
    w.len() == p.len() && forall|i: int| 0 <= i < w.len() ==> fits_char(#[trigger] w[i], p[i])
}

/// A non-empty run of decimal digits.
pub open spec fn all_digits(s: Seq<char>) -> bool {
    s.len() > 0 && forall|i: int| 0 <= i < s.len() ==> is_digit(#[trigger] s[i])
}

/// The unsigned part of a number: digits, optionally followed by `.` and digits.
pub open spec fn is_unsigned_number(b: Seq<char>) -> bool {
    all_digits(b) || exists|k: int|
        0 < k < b.len() - 1 && #[trigger] b[k] == '.' && all_digits(b.subrange(0, k)) && all_digits(
            b.subrange(k + 1, b.len() as int),
        )
}

/// A decimal number, optionally negative.
pub open spec fn is_number_text(w: Seq<char>) -> bool {
    if w.len() > 0 && w[0] == '-' {
        is_unsigned_number(w.drop_first())
    } else {
        is_unsigned_number(w)
    }
}

/// A date and time with a UTC designator or an offset.
pub open spec fn is_datetime_text(w: Seq<char>) -> bool {
    ||| fits_pattern(w, "dddd-dd-ddTdd:dd:ddZ"@)
    ||| fits_pattern(w, "dddd-dd-ddTdd:ddZ"@)
    ||| fits_pattern(w, "dddd-dd-ddTdd:dd:dd+dd:dd"@)
    ||| fits_pattern(w, "dddd-dd-ddTdd:dd:dd-dd:dd"@)
    ||| fits_pattern(w, "dddd-dd-ddTdd:dd+dd:dd"@)
    ||| fits_pattern(w, "dddd-dd-ddTdd:dd-dd:dd"@)
}

/// The literal a word spells, if it spells one.
pub open spec fn classify_literal(w: Seq<char>) -> Option<ValueModel> {
    if w == "null"@ {
        Some(ValueModel::Null)
    } else if w == "true"@ {
        Some(ValueModel::Bool(true))
    } else if w == "false"@ {
        Some(ValueModel::Bool(false))
    } else if is_number_text(w) {
        Some(ValueModel::Number(w))
    } else if fits_pattern(w, "hhhhhhhh-hhhh-hhhh-hhhh-hhhhhhhhhhhh"@) {
        Some(ValueModel::Uuid(w))
    } else if is_datetime_text(w) {
        Some(ValueModel::DateTime(w))
    } else if fits_pattern(w, "dddd-dd-dd"@) {
        Some(ValueModel::Date(w))
    } else if fits_pattern(w, "dd:dd:dd"@) || fits_pattern(w, "dd:dd"@) {
        Some(ValueModel::Time(w))
    } else {
        None
    }
}

pub open spec fn is_ident_char(c: char) -> bool {
    is_alpha(c) || is_digit(c) || c == '_' || c == '/'
}

/// A field or function name: a letter or `_` first, then letters, digits, `_` and `/`.
pub open spec fn is_identifier(w: Seq<char>) -> bool {
    w.len() > 0 && (is_alpha(w[0]) || w[0] == '_') && forall|i: int|
        0 <= i < w.len() ==> is_ident_char(#[trigger] w[i])
}

/// Words reserved for operators.
pub open spec fn is_keyword(w: Seq<char>) -> bool {
    ||| w == "and"@
    ||| w == "or"@
    ||| w == "not"@
    ||| w == "in"@
    ||| w == "eq"@
    ||| w == "ne"@
    ||| w == "gt"@
    ||| w == "ge"@
    ||| w == "lt"@
    ||| w == "le"@
}

/// The comparison operator a token spells, if any.
pub open spec fn compare_op_of(t: TokenModel) -> Option<CompareOperator> {
    if t == TokenModel::Word("eq"@) {
        Some(CompareOperator::Eq)
    } else if t == TokenModel::Word("ne"@) {
        Some(CompareOperator::Ne)
    } else if t == TokenModel::Word("gt"@) {
        Some(CompareOperator::Gt)
    } else if t == TokenModel::Word("ge"@) {
        Some(CompareOperator::Ge)
    } else if t == TokenModel::Word("lt"@) {
        Some(CompareOperator::Lt)
    } else if t == TokenModel::Word("le"@) {
        Some(CompareOperator::Le)
    } else {
        None
    }
}

fn hex(c: char) -> (r: bool)
    ensures
        r == is_hex(c),
{
    digit(c) || ('a' <= c && c <= 'f') || ('A' <= c && c <= 'F')
}

fn fits(w: &Vec<char>, pattern: &str) -> (r: bool)
    ensures
        r == fits_pattern(w@, pattern@),
{
    let p = chars_of(pattern);
    if w.len() != p.len() {
        return false;
    }
    let mut i: usize = 0;
    while i < w.len()
        invariant
            w@.len() == p@.len(),
            p@ == pattern@,
            i <= w@.len(),
            forall|j: int| 0 <= j < i ==> fits_char(#[trigger] w@[j], p@[j]),
        decreases w.len() - i,
    {
        let c = w[i];
        let q = p[i];
        let ok = if q == 'd' {
            digit(c)
        } else if q == 'h' {
            hex(c)
        } else {
            c == q
        };
        if !ok {
            return false;
        }
        i += 1;
    }
    true
}

/// The first index at or after `lo` whose character is not a digit.
fn digits_end(b: &Vec<char>, lo: usize) -> (k: usize)
    requires
        lo <= b@.len(),
    ensures
        lo <= k <= b@.len(),
        forall|j: int| lo <= j < k ==> is_digit(#[trigger] b@[j]),
        k < b@.len() ==> !is_digit(b@[k as int]),
{
    let mut k = lo;
    while k < b.len() && digit(b[k])
        invariant
            lo <= k <= b@.len(),
            forall|j: int| lo <= j < k ==> is_digit(#[trigger] b@[j]),
        decreases b.len() - k,
    {
        k += 1;
    }
    k
}

fn unsigned_number(b: &Vec<char>, lo: usize) -> (r: bool)
    requires
        lo <= b@.len(),
    ensures
        r == is_unsigned_number(b@.subrange(lo as int, b@.len() as int)),
{
    let ghost s = b@.subrange(lo as int, b@.len() as int);
    let k = digits_end(b, lo);
    if k == b.len() {
        if k > lo {
            assert(all_digits(s)) by {
                assert forall|j: int| 0 <= j < s.len() implies is_digit(#[trigger] s[j]) by {
                    assert(s[j] == b@[lo + j]);
                }
            }
            return true;
        } else {
            assert(s.len() == 0);
            return false;
        }
    }
    assert(!is_digit(s[k - lo]));
    if b[k] != '.' || k == lo {
        proof {
            assert(!all_digits(s));
            assert forall|m: int|
                0 < m < s.len() - 1 && #[trigger] s[m] == '.' && all_digits(s.subrange(0, m)) implies !all_digits(
                s.subrange(m + 1, s.len() as int),
            ) by {
                if m < k - lo {
                    assert(is_digit(b@[lo + m]));
                } else if m > k - lo {
                    assert(s.subrange(0, m)[k - lo] == s[k - lo]);
                }
            }
        }
        return false;
    }
    let e = digits_end(b, k + 1);
    let r = e == b.len() && e > k + 1;
    proof {
        let kk = k - lo;
        assert(s[kk] == '.');
        assert(!all_digits(s)) by {
            assert(!is_digit(s[kk]));
        }
        assert(all_digits(s.subrange(0, kk))) by {
            assert forall|j: int| 0 <= j < kk implies is_digit(#[trigger] s.subrange(0, kk)[j]) by {
                assert(s.subrange(0, kk)[j] == b@[lo + j]);
            }
        }
        if r {
            assert(all_digits(s.subrange(kk + 1, s.len() as int))) by {
                assert forall|j: int| 0 <= j < s.len() - kk - 1 implies is_digit(
                    #[trigger] s.subrange(kk + 1, s.len() as int)[j],
                ) by {
                    assert(s.subrange(kk + 1, s.len() as int)[j] == b@[k + 1 + j]);
                }
            }
            assert(0 < kk < s.len() - 1);
        } else {
            assert forall|m: int|
                0 < m < s.len() - 1 && #[trigger] s[m] == '.' && all_digits(s.subrange(0, m)) implies !all_digits(
                s.subrange(m + 1, s.len() as int),
            ) by {
                if m < kk {
                    assert(is_digit(b@[lo + m]));
                } else if m > kk {
                    assert(s.subrange(0, m)[kk] == s[kk]);
                } else {
                    if e < b.len() {
                        assert(s.subrange(m + 1, s.len() as int)[e - k - 1] == b@[e as int]);
                    } else {
                        assert(s.subrange(m + 1, s.len() as int).len() == 0);
                    }
                }
            }
        }
    }
    r
}

fn number_text(w: &Vec<char>) -> (r: bool)
    ensures
        r == is_number_text(w@),
{
    if w.len() > 0 && w[0] == '-' {
        assert(w@.drop_first() == w@.subrange(1, w@.len() as int));
        unsigned_number(w, 1)
    } else {
        assert(w@ == w@.subrange(0, w@.len() as int));
        unsigned_number(w, 0)
    }
}

fn datetime_text(w: &Vec<char>) -> (r: bool)
    ensures
        r == is_datetime_text(w@),
{
    fits(w, "dddd-dd-ddTdd:dd:ddZ") || fits(w, "dddd-dd-ddTdd:ddZ") || fits(w, "dddd-dd-ddTdd:dd:dd+dd:dd")
        || fits(w, "dddd-dd-ddTdd:dd:dd-dd:dd") || fits(w, "dddd-dd-ddTdd:dd+dd:dd") || fits(
        w,
        "dddd-dd-ddTdd:dd-dd:dd",
    )
}

/// The literal a word spells, if it spells one.
pub fn classify(w: &Vec<char>) -> (r: Option<Value>)
    ensures
        match r {
            Some(v) => classify_literal(w@) == Some(v@),
            None => classify_literal(w@) is None,
        },
{
    if chars_eq_str(w, "null") {
        Some(Value::Null)
    } else if chars_eq_str(w, "true") {
        Some(Value::Bool(true))
    } else if chars_eq_str(w, "false") {
        Some(Value::Bool(false))
    } else if number_text(w) {
        Some(Value::Number(string_from_chars(w)))
    } else if fits(w, "hhhhhhhh-hhhh-hhhh-hhhh-hhhhhhhhhhhh") {
        Some(Value::Uuid(string_from_chars(w)))
    } else if datetime_text(w) {
        Some(Value::DateTime(string_from_chars(w)))
    } else if fits(w, "dddd-dd-dd") {
        Some(Value::Date(string_from_chars(w)))
    } else if fits(w, "dd:dd:dd") || fits(w, "dd:dd") {
        Some(Value::Time(string_from_chars(w)))
    } else {
        None
    }
}

/// Executable `is_identifier`.
pub fn identifier(w: &Vec<char>) -> (r: bool)
    ensures
        r == is_identifier(w@),
{
    if w.len() == 0 || !(alpha(w[0]) || w[0] == '_') {
        return false;
    }
    let mut i: usize = 0;
    while i < w.len()
        invariant
            i <= w@.len(),
            forall|j: int| 0 <= j < i ==> is_ident_char(#[trigger] w@[j]),
        decreases w.len() - i,
    {
        let c = w[i];
        if !(alpha(c) || digit(c) || c == '_' || c == '/') {
            return false;
        }
        i += 1;
    }
    true
}

/// Executable `is_keyword`.
pub fn keyword(w: &Vec<char>) -> (r: bool)
    ensures
        r == is_keyword(w@),
{
    chars_eq_str(w, "and") || chars_eq_str(w, "or") || chars_eq_str(w, "not") || chars_eq_str(w, "in")
        || chars_eq_str(w, "eq") || chars_eq_str(w, "ne") || chars_eq_str(w, "gt") || chars_eq_str(w, "ge")
        || chars_eq_str(w, "lt") || chars_eq_str(w, "le")
}

/// The comparison operator a word spells, if any.
pub fn compare_op_word(w: &Vec<char>) -> (r: Option<CompareOperator>)
    ensures
        r == compare_op_of(TokenModel::Word(w@)),
{
    if chars_eq_str(w, "eq") {
        Some(CompareOperator::Eq)
    } else if chars_eq_str(w, "ne") {
        Some(CompareOperator::Ne)
    } else if chars_eq_str(w, "gt") {
        Some(CompareOperator::Gt)
    } else if chars_eq_str(w, "ge") {
        Some(CompareOperator::Ge)
    } else if chars_eq_str(w, "lt") {
        Some(CompareOperator::Lt)
    } else if chars_eq_str(w, "le") {
        Some(CompareOperator::Le)
    } else {
        None
    }
}

} // verus!
