//! The `OData` filter expression tree produced by the parser and consumed by
//! the typed filter conversion.

use vstd::prelude::*;

use crate::text::{cat3, owned};

verus! {

/// Comparison operators of `OData` filters.
#[derive(Clone, Copy, Debug, PartialEq, Eq, Structural)]
pub enum CompareOperator {
    Eq,
    Ne,
    Gt,
    Ge,
    Lt,
    Le,
}

/// A literal value of an `OData` filter. Numbers and temporal values keep the
/// text in which they were written.
#[derive(Debug, Clone, PartialEq, Eq)]
pub enum Value {
    Null,
    Bool(bool),
    Number(String),
    Uuid(String),
    DateTime(String),
    Date(String),
    Time(String),
    String(String),
}

/// Mathematical model of a `Value`: its texts as character sequences.
pub enum ValueModel {
    Null,
    Bool(bool),
    Number(Seq<char>),
    Uuid(Seq<char>),
    DateTime(Seq<char>),
    Date(Seq<char>),
    Time(Seq<char>),
    String(Seq<char>),
}

impl View for Value {
    type V = ValueModel;

    open spec fn view(&self) -> ValueModel {
        match self {
            Value::Null => ValueModel::Null,
            Value::Bool(b) => ValueModel::Bool(*b),
            Value::Number(s) => ValueModel::Number(s@),
            Value::Uuid(s) => ValueModel::Uuid(s@),
            Value::DateTime(s) => ValueModel::DateTime(s@),
            Value::Date(s) => ValueModel::Date(s@),
            Value::Time(s) => ValueModel::Time(s@),
            Value::String(s) => ValueModel::String(s@),
        }
    }
}

/// How a value is written back as text: strings in single quotes, every
/// other value as its own text.
pub open spec fn value_text(v: ValueModel) -> Seq<char> {
    match v {
        ValueModel::Null => "null"@,
        ValueModel::Bool(b) => if b { "true"@ } else { "false"@ },
        ValueModel::Number(s) => s,
        ValueModel::Uuid(s) => s,
        ValueModel::DateTime(s) => s,
        ValueModel::Date(s) => s,
        ValueModel::Time(s) => s,
        ValueModel::String(s) => "'"@ + s + "'"@,
    }
}

impl Value {
    /// The value written back as text (see `value_text`).
    pub fn to_string(&self) -> (r: String)
        ensures
            r@ == value_text(self@),
    {
        match self {
            Value::Null => owned("null"),
            Value::Bool(b) => if *b { owned("true") } else { owned("false") },
            Value::Number(s) => s.clone(),
            Value::Uuid(s) => s.clone(),
            Value::DateTime(s) => s.clone(),
            Value::Date(s) => s.clone(),
            Value::Time(s) => s.clone(),
            Value::String(s) => cat3("'", s.as_str(), "'"),
        }
    }

    /// A copy of this value.
    pub fn copy(&self) -> (r: Value)
        ensures
            r@ == self@,
    {
        match self {
            Value::Null => Value::Null,
            Value::Bool(b) => Value::Bool(*b),
            Value::Number(s) => Value::Number(s.clone()),
            Value::Uuid(s) => Value::Uuid(s.clone()),
            Value::DateTime(s) => Value::DateTime(s.clone()),
            Value::Date(s) => Value::Date(s.clone()),
            Value::Time(s) => Value::Time(s.clone()),
            Value::String(s) => Value::String(s.clone()),
        }
    }
}

/// A filter expression as written, before field names and value types are checked.
#[derive(Debug)]
pub enum Expr {
    And(Box<Expr>, Box<Expr>),
    Or(Box<Expr>, Box<Expr>),
    Not(Box<Expr>),
    Compare(Box<Expr>, CompareOperator, Box<Expr>),
    In(Box<Expr>, Vec<Expr>),
    Function(String, Vec<Expr>),
    Identifier(String),
    Value(Value),
}

/// Mathematical model of an `Expr`.
pub enum ExprModel {
    And(Box<ExprModel>, Box<ExprModel>),
    Or(Box<ExprModel>, Box<ExprModel>),
    Not(Box<ExprModel>),
    Compare(Box<ExprModel>, CompareOperator, Box<ExprModel>),
    In(Box<ExprModel>, Seq<ExprModel>),
    Function(Seq<char>, Seq<ExprModel>),
    Identifier(Seq<char>),
    Value(ValueModel),
}

impl Expr {
    /// The model of this expression.
    pub open spec fn model(self) -> ExprModel
        decreases self,
    {
        match self {
            Expr::And(l, r) => ExprModel::And(Box::new(l.model()), Box::new(r.model())),
            Expr::Or(l, r) => ExprModel::Or(Box::new(l.model()), Box::new(r.model())),
            Expr::Not(i) => ExprModel::Not(Box::new(i.model())),
            Expr::Compare(l, op, r) => ExprModel::Compare(Box::new(l.model()), op, Box::new(r.model())),
            Expr::In(l, list) => ExprModel::In(Box::new(l.model()), Expr::models(list@)),
            Expr::Function(n, args) => ExprModel::Function(n@, Expr::models(args@)),
            Expr::Identifier(n) => ExprModel::Identifier(n@),
            Expr::Value(v) => ExprModel::Value(v@),
        }
    }

    /// The models of a sequence of expressions, element by element.
    pub open spec fn models(s: Seq<Expr>) -> Seq<ExprModel>
        decreases s,
    {
        if s.len() == 0 {
            seq![]
        } else {
            Expr::models(s.drop_last()).push(s.last().model())
        }
    }

    pub proof fn lemma_models(s: Seq<Expr>)
        ensures
            Expr::models(s).len() == s.len(),
            forall|i: int| 0 <= i < s.len() ==> #[trigger] Expr::models(s)[i] == s[i].model(),
        decreases s.len(),
    {
        if s.len() > 0 {
            Expr::lemma_models(s.drop_last());
        }
    }
}

impl View for Expr {
    type V = ExprModel;

    open spec fn view(&self) -> ExprModel {
        self.model()
    }
}

} // verus!
