//! Typed `OData` filters: field catalogs, the typed filter tree, and the
//! conversion of a parsed expression into that tree with its checks.

use vstd::prelude::*;

use crate::ast::{value_text, CompareOperator, Expr, ExprModel, Value, ValueModel};
use crate::odata_filters::{parse_error_text, parse_spec, parse_str};
use crate::odata_lexer::TokenModel;
use crate::odata_print::{compare_op_word, lemma_words_distinct};
use crate::odata_words::compare_op_of;
use crate::seq_facts::{lemma_filter_prefix_head, lemma_filter_step};
use crate::text::{ascii_lower_seq, cat, cat3, chars_eq_ignore_ascii_case, chars_eq_str, chars_of,
    eq_ignore_ascii_case, lower_chars, owned};

verus! {

/// The value type of a filterable field.
#[derive(Clone, Copy, Debug, PartialEq, Eq, Structural)]
pub enum FieldKind {
    String,
    I64,
    F64,
    Bool,
    Uuid,
    DateTimeUtc,
    Date,
    Time,
    Decimal,
}

/// The display name of a field kind.
pub open spec fn field_kind_text(k: FieldKind) -> Seq<char> {
    match k {
        FieldKind::String => "String"@,
        FieldKind::I64 => "I64"@,
        FieldKind::F64 => "F64"@,
        FieldKind::Bool => "Bool"@,
        FieldKind::Uuid => "Uuid"@,
        FieldKind::DateTimeUtc => "DateTimeUtc"@,
        FieldKind::Date => "Date"@,
        FieldKind::Time => "Time"@,
        FieldKind::Decimal => "Decimal"@,
    }
}

impl FieldKind {
    /// The display name of this kind.
    pub fn to_string(&self) -> (r: String)
        ensures
            r@ == field_kind_text(*self),
    {
        match self {
            FieldKind::String => owned("String"),
            FieldKind::I64 => owned("I64"),
            FieldKind::F64 => owned("F64"),
            FieldKind::Bool => owned("Bool"),
            FieldKind::Uuid => owned("Uuid"),
            FieldKind::DateTimeUtc => owned("DateTimeUtc"),
            FieldKind::Date => owned("Date"),
            FieldKind::Time => owned("Time"),
            FieldKind::Decimal => owned("Decimal"),
        }
    }
}

/// The predicate "designated by `name`" over fields named by `nm`
/// (names compare without regard to ASCII case).
pub open spec fn name_is<F>(nm: spec_fn(F) -> Seq<char>, name: Seq<char>) -> spec_fn(F) -> bool {
    |f: F| eq_ignore_ascii_case(nm(f), name)
}

/// Index of the last `/` in `s`, or -1 when there is none.
pub open spec fn last_slash(s: Seq<char>) -> int
    decreases s.len(),
{
    if s.len() == 0 {
        -1
    } else if s.last() == '/' {
        s.len() - 1
    } else {
        last_slash(s.drop_last())
    }
}

/// The last segment of a slash-delimited property path (all of `s` without a slash).
pub open spec fn last_segment(s: Seq<char>) -> Seq<char> {
    s.subrange(last_slash(s) + 1, s.len() as int)
}

/// The field among `fields` (named by `nm`) that `name` designates: the first
/// field whose name equals `name`; failing that, when `name` is a property
/// path, the one field whose name equals the path's last segment (none when
/// several share it).
pub open spec fn pick_field<F>(fields: Seq<F>, nm: spec_fn(F) -> Seq<char>, name: Seq<char>) -> Option<F> {
    let exact = fields.filter(name_is(nm, name));
    if exact.len() > 0 {
        Some(exact[0])
    } else if last_slash(name) >= 0 {
        let by_last = fields.filter(name_is(nm, last_segment(name)));
        if by_last.len() == 1 {
            Some(by_last[0])
        } else {
            None
        }
    } else {
        None
    }
}

/// The field of `F` that `name` designates (see `pick_field`).
pub open spec fn field_by_name<F: FilterField>(name: Seq<char>) -> Option<F> {
    pick_field(F::FIELDS@, |f: F| f.field_name(), name)
}

/// A field that filters may refer to. Implementations list their fields in
/// `FIELDS` and give each its name and value kind.
pub trait FilterField: Sized + Copy + Eq + core::hash::Hash + core::fmt::Debug + 'static {
    /// Every field of the catalog, in lookup order.
    const FIELDS: &'static [Self];

    /// The name of the field (what `name` returns). It has a default body
    /// only so that implementations written outside verified code, which
    /// cannot define it, still compile; proofs never read that body.
    closed spec fn field_name(&self) -> Seq<char> {
        arbitrary()
    }

    /// The value kind of the field (what `kind` returns); default body as for `field_name`.
    closed spec fn field_kind(&self) -> FieldKind {
        arbitrary()
    }

    fn name(&self) -> (r: &'static str)
        ensures
            r@ == self.field_name(),
    ;

    fn kind(&self) -> (r: FieldKind)
        ensures
            r == self.field_kind(),
    ;

    /// Resolves a field from its (possibly slash-delimited) name.
    fn from_name(name: &str) -> (r: Option<Self>)
        ensures
            r == pick_field(Self::FIELDS@, |f: Self| f.field_name(), name@),
    {
        let fields = Self::FIELDS;
        let target = chars_of(name);
        let ghost all = Self::FIELDS@;
        let ghost p = name_is(|f: Self| f.field_name(), name@);
        let mut i: usize = 0;
        while i < fields.len()
            invariant
                fields@ == all,
                all == Self::FIELDS@,
                p == name_is(|f: Self| f.field_name(), name@),
                target@ == name@,
                i <= all.len(),
                all.take(i as int).filter(p).len() == 0,
            decreases fields.len() - i,
        {
            let f = fields[i];
            let fname = chars_of(f.name());
            let hit = chars_eq_ignore_ascii_case(&fname, &target);
            proof {
                lemma_filter_step(all, p, i as int);
            }
            if hit {
                proof {
                    lemma_filter_prefix_head(all, p, i as int + 1);
                }
                return Some(f);
            }
            i += 1;
        }
        assert(all.take(all.len() as int) == all);
        match last_slash_index(&target) {
            None => None,
            Some(k) => {
                assert(k < target@.len());
                assert(target@.len() == target.len());
                let last = tail_from(&target, k + 1);
                let ghost q = name_is(|f: Self| f.field_name(), last_segment(name@));
                let mut count: usize = 0;
                let mut first: Option<Self> = None;
                let mut j: usize = 0;
                while j < fields.len()
                    invariant
                        fields@ == all,
                        all == Self::FIELDS@,
                        q == name_is(|f: Self| f.field_name(), last_segment(name@)),
                        last@ == last_segment(name@),
                        j <= all.len(),
                        count == all.take(j as int).filter(q).len(),
                        count <= j,
                        count > 0 ==> first == Some(all.take(j as int).filter(q)[0]),
                    decreases fields.len() - j,
                {
                    let f = fields[j];
                    let fname = chars_of(f.name());
                    let hit = chars_eq_ignore_ascii_case(&fname, &last);
                    proof {
                        lemma_filter_step(all, q, j as int);
                        assert(hit == q(all[j as int]));
                    }
                    if hit {
                        if count == 0 {
                            first = Some(f);
                        }
                        count += 1;
                    }
                    j += 1;
                }
                assert(all.take(all.len() as int) == all);
                if count == 1 {
                    first
                } else {
                    None
                }
            }
        }
    }
}

/// The index of the last `/` of `v`, if any.
fn last_slash_index(v: &Vec<char>) -> (r: Option<usize>)
    ensures
        match r {
            Some(k) => k < v@.len() && k == last_slash(v@),
            None => last_slash(v@) == -1,
        },
{
    let mut i = v.len();
    assert(v@.take(v@.len() as int) == v@);
    while i > 0
        invariant
            i <= v@.len(),
            last_slash(v@) == last_slash(v@.take(i as int)),
        decreases i,
    {
        assert(v@.take(i as int).drop_last() == v@.take(i - 1));
        if v[i - 1] == '/' {
            return Some(i - 1);
        }
        i -= 1;
    }
    None
}

/// The characters of `v` from index `k` on.
fn tail_from(v: &Vec<char>, k: usize) -> (r: Vec<char>)
    requires
        k <= v@.len(),
    ensures
        r@ == v@.subrange(k as int, v@.len() as int),
{
    let mut r: Vec<char> = Vec::new();
    let mut i = k;
    while i < v.len()
        invariant
            k <= i <= v@.len(),
            r@ == v@.subrange(k as int, i as int),
        decreases v.len() - i,
    {
        r.push(v[i]);
        assert(v@.subrange(k as int, i + 1) == v@.subrange(k as int, i as int).push(v@[i as int]));
        i += 1;
    }
    r
}

/// Operators of the typed filter tree.
#[derive(Debug, Clone, Copy, PartialEq, Eq, Structural)]
pub enum FilterOp {
    Eq,
    Ne,
    Gt,
    Ge,
    Lt,
    Le,
    In,
    Contains,
    StartsWith,
    EndsWith,
    And,
    Or,
}

/// The `OData` spelling of an operator.
pub open spec fn filter_op_text(op: FilterOp) -> Seq<char> {
    match op {
        FilterOp::Eq => "eq"@,
        FilterOp::Ne => "ne"@,
        FilterOp::Gt => "gt"@,
        FilterOp::Ge => "ge"@,
        FilterOp::Lt => "lt"@,
        FilterOp::Le => "le"@,
        FilterOp::In => "in"@,
        FilterOp::Contains => "contains"@,
        FilterOp::StartsWith => "startswith"@,
        FilterOp::EndsWith => "endswith"@,
        FilterOp::And => "and"@,
        FilterOp::Or => "or"@,
    }
}

impl FilterOp {
    /// The `OData` spelling of this operator.
    pub fn to_string(&self) -> (r: String)
        ensures
            r@ == filter_op_text(*self),
    {
        match self {
            FilterOp::Eq => owned("eq"),
            FilterOp::Ne => owned("ne"),
            FilterOp::Gt => owned("gt"),
            FilterOp::Ge => owned("ge"),
            FilterOp::Lt => owned("lt"),
            FilterOp::Le => owned("le"),
            FilterOp::In => owned("in"),
            FilterOp::Contains => owned("contains"),
            FilterOp::StartsWith => owned("startswith"),
            FilterOp::EndsWith => owned("endswith"),
            FilterOp::And => owned("and"),
            FilterOp::Or => owned("or"),
        }
    }
}

/// A typed filter over the fields of `F`.
#[derive(Debug)]
pub enum FilterNode<F: FilterField> {
    Binary { field: F, op: FilterOp, value: Value },
    InList { field: F, values: Vec<Value> },
    Composite { op: FilterOp, children: Vec<FilterNode<F>> },
    Not(Box<FilterNode<F>>),
}

/// Mathematical model of a `FilterNode`.
pub enum FilterNodeModel<F> {
    Binary { field: F, op: FilterOp, value: ValueModel },
    InList { field: F, values: Seq<ValueModel> },
    Composite { op: FilterOp, children: Seq<FilterNodeModel<F>> },
    Not(Box<FilterNodeModel<F>>),
}

/// The models of a sequence of values.
pub open spec fn value_models(s: Seq<Value>) -> Seq<ValueModel> {
    s.map_values(|v: Value| v@)
}

impl<F: FilterField> FilterNode<F> {
    /// The model of this node.
    pub open spec fn model(self) -> FilterNodeModel<F>
        decreases self,
    {
        match self {
            FilterNode::Binary { field, op, value } => FilterNodeModel::Binary {
                field,
                op,
                value: value@,
            },
            FilterNode::InList { field, values } => FilterNodeModel::InList {
                field,
                values: value_models(values@),
            },
            FilterNode::Composite { op, children } => FilterNodeModel::Composite {
                op,
                children: FilterNode::models(children@),
            },
            FilterNode::Not(inner) => FilterNodeModel::Not(Box::new(inner.model())),
        }
    }

    /// The models of a sequence of nodes, element by element.
    pub open spec fn models(s: Seq<FilterNode<F>>) -> Seq<FilterNodeModel<F>>
        decreases s,
    {
        if s.len() == 0 {
            seq![]
        } else {
            FilterNode::models(s.drop_last()).push(s.last().model())
        }
    }

    /// A copy of this node.
    #[verifier::loop_isolation(false)]
    pub fn copy(&self) -> (r: Self)
        ensures
            r@ == self@,
        decreases self,
    {
        match self {
            FilterNode::Binary { field, op, value } => FilterNode::Binary { field: *field, op: *op, value: value.copy() },
            FilterNode::InList { field, values } => {
                let mut out: Vec<Value> = Vec::new();
                let mut i: usize = 0;
                while i < values.len()
                    invariant
                        i <= values@.len(),
                        out@.len() == i,
                        value_models(out@) == value_models(values@.take(i as int)),
                    decreases values.len() - i,
                {
                    let v = values[i].copy();
                    let ghost prev = out@;
                    out.push(v);
                    proof {
                        assert(values@.take(i + 1) =~= values@.take(i as int).push(values@[i as int]));
                        assert forall|k: int| 0 <= k < i implies #[trigger] value_models(out@)[k] == value_models(
                            values@.take(i + 1),
                        )[k] by {
                            assert(value_models(prev)[k] == value_models(values@.take(i as int))[k]);
                        }
                    }
                    assert(value_models(out@) =~= value_models(values@.take(i + 1)));
                    i += 1;
                }
                assert(values@.take(values@.len() as int) =~= values@);
                FilterNode::InList { field: *field, values: out }
            },
            FilterNode::Composite { op, children } => {
                let mut out: Vec<FilterNode<F>> = Vec::new();
                let mut i: usize = 0;
                while i < children.len()
                    invariant
                        i <= children@.len(),
                        FilterNode::models(out@) == FilterNode::models(children@.take(i as int)),
                    decreases children.len() - i,
                {
                    proof {
                        assert(decreases_to!(children => children@));
                        assert(decreases_to!(children@ => children@[i as int]));
                    }
                    let c = children[i].copy();
                    let ghost prev = out@;
                    out.push(c);
                    proof {
                        assert(out@.drop_last() =~= prev);
                        assert(children@.take(i + 1).drop_last() =~= children@.take(i as int));
                    }
                    i += 1;
                }
                assert(children@.take(children@.len() as int) =~= children@);
                FilterNode::Composite { op: *op, children: out }
            },
            FilterNode::Not(inner) => FilterNode::Not(Box::new(inner.copy())),
        }
    }

    /// A comparison of `field` with `value`.
    pub fn binary(field: F, op: FilterOp, value: Value) -> (r: Self)
        ensures
            r@ == (FilterNodeModel::Binary { field, op, value: value@ }),
    {
        FilterNode::Binary { field, op, value }
    }

    /// The conjunction of `children`.
    pub fn and(children: Vec<FilterNode<F>>) -> (r: Self)
        ensures
            r@ == (FilterNodeModel::Composite { op: FilterOp::And, children: FilterNode::models(children@) }),
    {
        FilterNode::Composite { op: FilterOp::And, children }
    }

    /// The disjunction of `children`.
    pub fn or(children: Vec<FilterNode<F>>) -> (r: Self)
        ensures
            r@ == (FilterNodeModel::Composite { op: FilterOp::Or, children: FilterNode::models(children@) }),
    {
        FilterNode::Composite { op: FilterOp::Or, children }
    }

    /// The negation of `inner`.
    pub fn not(inner: FilterNode<F>) -> (r: Self)
        ensures
            r@ == FilterNodeModel::Not(Box::new(inner@)),
    {
        FilterNode::Not(Box::new(inner))
    }
}

impl<F: FilterField> Clone for FilterNode<F> {
    fn clone(&self) -> (r: Self)
        ensures
            r@ == self@,
    {
        self.copy()
    }
}

impl<F: FilterField> View for FilterNode<F> {
    type V = FilterNodeModel<F>;

    open spec fn view(&self) -> FilterNodeModel<F> {
        self.model()
    }
}

/// Why a filter was refused.
#[derive(Debug, Clone)]
#[non_exhaustive]
pub enum FilterError {
    UnknownField(String),
    TypeMismatch { field: String, expected: FieldKind, got: String },
    UnsupportedOperation(String),
    InvalidExpression(String),
    FieldToFieldComparison,
    BareIdentifier(String),
    BareLiteral,
}

/// Mathematical model of a `FilterError`.
pub enum FilterErrorModel {
    UnknownField(Seq<char>),
    TypeMismatch { field: Seq<char>, expected: FieldKind, got: Seq<char> },
    UnsupportedOperation(Seq<char>),
    InvalidExpression(Seq<char>),
    FieldToFieldComparison,
    BareIdentifier(Seq<char>),
    BareLiteral,
}

impl View for FilterError {
    type V = FilterErrorModel;

    open spec fn view(&self) -> FilterErrorModel {
        match self {
            FilterError::UnknownField(s) => FilterErrorModel::UnknownField(s@),
            FilterError::TypeMismatch { field, expected, got } => FilterErrorModel::TypeMismatch {
                field: field@,
                expected: *expected,
                got: got@,
            },
            FilterError::UnsupportedOperation(s) => FilterErrorModel::UnsupportedOperation(s@),
            FilterError::InvalidExpression(s) => FilterErrorModel::InvalidExpression(s@),
            FilterError::FieldToFieldComparison => FilterErrorModel::FieldToFieldComparison,
            FilterError::BareIdentifier(s) => FilterErrorModel::BareIdentifier(s@),
            FilterError::BareLiteral => FilterErrorModel::BareLiteral,
        }
    }
}

/// The message of a filter error.
pub open spec fn filter_error_text(e: FilterErrorModel) -> Seq<char> {
    match e {
        FilterErrorModel::UnknownField(s) => "Unknown field: "@ + s,
        FilterErrorModel::TypeMismatch { field, expected, got } => "Type mismatch for field "@ + field
            + ": expected "@ + field_kind_text(expected) + ", got "@ + got,
        FilterErrorModel::UnsupportedOperation(s) => "Unsupported operation: "@ + s,
        FilterErrorModel::InvalidExpression(s) => "Invalid filter expression: "@ + s,
        FilterErrorModel::FieldToFieldComparison => "Field-to-field comparisons are not supported"@,
        FilterErrorModel::BareIdentifier(s) => "Bare identifier in filter: "@ + s,
        FilterErrorModel::BareLiteral => "Bare literal in filter"@,
    }
}

impl FilterError {
    /// The message of this error.
    pub fn to_string(&self) -> (r: String)
        ensures
            r@ == filter_error_text(self@),
    {
        match self {
            FilterError::UnknownField(s) => cat("Unknown field: ", s.as_str()),
            FilterError::TypeMismatch { field, expected, got } => {
                let mut r = cat3("Type mismatch for field ", field.as_str(), ": expected ");
                let k = expected.to_string();
                r.append(k.as_str());
                r.append(", got ");
                r.append(got.as_str());
                r
            },
            FilterError::UnsupportedOperation(s) => cat("Unsupported operation: ", s.as_str()),
            FilterError::InvalidExpression(s) => cat("Invalid filter expression: ", s.as_str()),
            FilterError::FieldToFieldComparison => owned("Field-to-field comparisons are not supported"),
            FilterError::BareIdentifier(s) => cat("Bare identifier in filter: ", s.as_str()),
            FilterError::BareLiteral => owned("Bare literal in filter"),
        }
    }
}

/// The model of a conversion result.
pub open spec fn filter_result_model<F: FilterField>(r: Result<FilterNode<F>, FilterError>) -> Result<
    FilterNodeModel<F>,
    FilterErrorModel,
> {
    match r {
        Ok(n) => Ok(n@),
        Err(e) => Err(e@),
    }
}

/// Whether a field of kind `kind` accepts the literal `v`.
pub open spec fn kind_accepts(kind: FieldKind, v: ValueModel) -> bool {
    match kind {
        FieldKind::String => v is String,
        FieldKind::I64 | FieldKind::F64 | FieldKind::Decimal => v is Number,
        FieldKind::Bool => v is Bool,
        FieldKind::Uuid => v is Uuid,
        FieldKind::DateTimeUtc => v is DateTime,
        FieldKind::Date => v is Date,
        FieldKind::Time => v is Time,
    }
}

/// Whether a literal fits the kind of the field it is compared with, and the error when it does not.
pub open spec fn validate_spec<F: FilterField>(f: F, v: ValueModel) -> Result<(), FilterErrorModel> {
    if kind_accepts(f.field_kind(), v) {
        Ok(())
    } else {
        Err(
            FilterErrorModel::TypeMismatch {
                field: f.field_name(),
                expected: f.field_kind(),
                got: value_text(v),
            },
        )
    }
}

fn validate_value_type<F: FilterField>(field: F, value: &Value) -> (r: Result<(), FilterError>)
    ensures
        match r {
            Ok(()) => validate_spec(field, value@) is Ok,
            Err(e) => validate_spec(field, value@) == Err::<(), FilterErrorModel>(e@),
        },
{
    let kind = field.kind();
    let matches = match kind {
        FieldKind::String => matches!(value, Value::String(_)),
        FieldKind::I64 | FieldKind::F64 | FieldKind::Decimal => matches!(value, Value::Number(_)),
        FieldKind::Bool => matches!(value, Value::Bool(_)),
        FieldKind::Uuid => matches!(value, Value::Uuid(_)),
        FieldKind::DateTimeUtc => matches!(value, Value::DateTime(_)),
        FieldKind::Date => matches!(value, Value::Date(_)),
        FieldKind::Time => matches!(value, Value::Time(_)),
    };
    if matches {
        Ok(())
    } else {
        Err(FilterError::TypeMismatch { field: owned(field.name()), expected: kind, got: value.to_string() })
    }
}

/// The typed operator of a comparison operator.
pub open spec fn compare_filter_op(op: CompareOperator) -> FilterOp {
    match op {
        CompareOperator::Eq => FilterOp::Eq,
        CompareOperator::Ne => FilterOp::Ne,
        CompareOperator::Gt => FilterOp::Gt,
        CompareOperator::Ge => FilterOp::Ge,
        CompareOperator::Lt => FilterOp::Lt,
        CompareOperator::Le => FilterOp::Le,
    }
}

/// The typed operator of a string function, by its lower-cased name.
pub open spec fn string_function_op(lower: Seq<char>) -> Option<FilterOp> {
    if lower == "contains"@ {
        Some(FilterOp::Contains)
    } else if lower == "startswith"@ {
        Some(FilterOp::StartsWith)
    } else if lower == "endswith"@ {
        Some(FilterOp::EndsWith)
    } else {
        None
    }
}

/// The arguments `(field, 'text')` of a string function, when they have that shape.
pub open spec fn field_and_text(args: Seq<ExprModel>) -> Option<(Seq<char>, Seq<char>)> {
    if args.len() == 2 && args[0] is Identifier && args[1] is Value && args[1]->Value_0 is String {
        Some((args[0]->Identifier_0, args[1]->Value_0->String_0))
    } else {
        None
    }
}

/// The conversion of a comparison `name op v`.
pub open spec fn compare_spec<F: FilterField>(name: Seq<char>, op: CompareOperator, v: ValueModel) -> Result<
    FilterNodeModel<F>,
    FilterErrorModel,
> {
    match field_by_name::<F>(name) {
        None => Err(FilterErrorModel::UnknownField(name)),
        Some(f) => match validate_spec(f, v) {
            Err(e) => Err(e),
            Ok(_) => Ok(FilterNodeModel::Binary { field: f, op: compare_filter_op(op), value: v }),
        },
    }
}

/// The conversion of a function call `name(args)`.
pub open spec fn function_spec<F: FilterField>(name: Seq<char>, args: Seq<ExprModel>) -> Result<
    FilterNodeModel<F>,
    FilterErrorModel,
> {
    let unsupported = Err(FilterErrorModel::UnsupportedOperation("Function '"@ + name + "'"@));
    match string_function_op(ascii_lower_seq(name)) {
        None => unsupported,
        Some(op) => match field_and_text(args) {
            None => unsupported,
            Some((field_name, text)) => match field_by_name::<F>(field_name) {
            None => Err(FilterErrorModel::UnknownField(field_name)),
            Some(f) => if f.field_kind() != FieldKind::String {
                Err(
                    FilterErrorModel::TypeMismatch {
                        field: field_name,
                        expected: FieldKind::String,
                        got: "non-string"@,
                    },
                )
            } else {
                Ok(FilterNodeModel::Binary { field: f, op, value: ValueModel::String(text) })
            },
            },
        },
    }
}

/// The literals of the first `n` items of an `IN` list, checked against field `f`;
/// the first offending item decides the error.
pub open spec fn in_values_spec<F: FilterField>(f: F, list: Seq<ExprModel>, n: int) -> Result<
    Seq<ValueModel>,
    FilterErrorModel,
>
    decreases n,
{
    if n <= 0 {
        Ok(seq![])
    } else {
        match in_values_spec(f, list, n - 1) {
            Err(e) => Err(e),
            Ok(vs) => match list[n - 1] {
                ExprModel::Value(v) => match validate_spec(f, v) {
                    Err(e) => Err(e),
                    Ok(_) => Ok(vs.push(v)),
                },
                _ => Err(FilterErrorModel::InvalidExpression("IN operator values must be literals"@)),
            },
        }
    }
}

/// The conversion of `left in (list)`.
pub open spec fn in_spec<F: FilterField>(left: ExprModel, list: Seq<ExprModel>) -> Result<
    FilterNodeModel<F>,
    FilterErrorModel,
> {
    match left {
        ExprModel::Identifier(name) => match field_by_name::<F>(name) {
            None => Err(FilterErrorModel::UnknownField(name)),
            Some(f) => match in_values_spec(f, list, list.len() as int) {
                Err(e) => Err(e),
                Ok(vs) => if vs.len() == 0 {
                    Err(FilterErrorModel::InvalidExpression("IN operator requires at least one value"@))
                } else {
                    Ok(FilterNodeModel::InList { field: f, values: vs })
                },
            },
        },
        _ => Err(
            FilterErrorModel::InvalidExpression(
                "IN operator requires a field identifier on the left side"@,
            ),
        ),
    }
}

/// The typed filter of an expression, or the first reason (left to right) it is refused.
pub open spec fn convert_spec<F: FilterField>(e: ExprModel) -> Result<FilterNodeModel<F>, FilterErrorModel>
    decreases e,
{
    match e {
        ExprModel::And(l, r) => match convert_spec::<F>(*l) {
            Err(x) => Err(x),
            Ok(ln) => match convert_spec::<F>(*r) {
                Err(x) => Err(x),
                Ok(rn) => Ok(FilterNodeModel::Composite { op: FilterOp::And, children: seq![ln, rn] }),
            },
        },
        ExprModel::Or(l, r) => match convert_spec::<F>(*l) {
            Err(x) => Err(x),
            Ok(ln) => match convert_spec::<F>(*r) {
                Err(x) => Err(x),
                Ok(rn) => Ok(FilterNodeModel::Composite { op: FilterOp::Or, children: seq![ln, rn] }),
            },
        },
        ExprModel::Not(i) => match convert_spec::<F>(*i) {
            Err(x) => Err(x),
            Ok(n) => Ok(FilterNodeModel::Not(Box::new(n))),
        },
        ExprModel::Compare(l, op, r) => match *l {
            ExprModel::Identifier(name) => match *r {
                ExprModel::Value(v) => compare_spec::<F>(name, op, v),
                ExprModel::Identifier(_) => Err(FilterErrorModel::FieldToFieldComparison),
                _ => Err(FilterErrorModel::InvalidExpression("Comparison must be between field and value"@)),
            },
            _ => Err(FilterErrorModel::InvalidExpression("Comparison must be between field and value"@)),
        },
        ExprModel::Function(name, args) => function_spec::<F>(name, args),
        ExprModel::In(l, list) => in_spec::<F>(*l, list),
        ExprModel::Identifier(name) => Err(FilterErrorModel::BareIdentifier(name)),
        ExprModel::Value(_) => Err(FilterErrorModel::BareLiteral),
    }
}

proof fn lemma_two_models<F: FilterField>(a: FilterNode<F>, b: FilterNode<F>)
    ensures
        FilterNode::models(seq![a, b]) == seq![a@, b@],
{
    let s = seq![a, b];
    assert(s.drop_last() =~= seq![a]);
    assert(seq![a].drop_last() =~= Seq::<FilterNode<F>>::empty());
    assert(FilterNode::models(Seq::<FilterNode<F>>::empty()) =~= Seq::<FilterNodeModel<F>>::empty());
    assert(FilterNode::models(seq![a]) =~= seq![a@]);
    assert(FilterNode::models(s) =~= seq![a@, b@]);
}

fn string_function_filter_op(name: &String) -> (r: Option<FilterOp>)
    ensures
        r == string_function_op(ascii_lower_seq(name@)),
{
    let lower = lower_chars(&chars_of(name.as_str()));
    if chars_eq_str(&lower, "contains") {
        Some(FilterOp::Contains)
    } else if chars_eq_str(&lower, "startswith") {
        Some(FilterOp::StartsWith)
    } else if chars_eq_str(&lower, "endswith") {
        Some(FilterOp::EndsWith)
    } else {
        None
    }
}

fn convert_function<F: FilterField>(name: &String, args: &Vec<Expr>) -> (r: Result<FilterNode<F>, FilterError>)
    ensures
        filter_result_model(r) == function_spec::<F>(name@, Expr::models(args@)),
{
    proof {
        Expr::lemma_models(args@);
    }
    let op = string_function_filter_op(name);
    let unsupported = FilterError::UnsupportedOperation(cat3("Function '", name.as_str(), "'"));
    if args.len() != 2 {
        return Err(unsupported);
    }
    match op {
        None => Err(unsupported),
        Some(op) => match (&args[0], &args[1]) {
            (Expr::Identifier(field_name), Expr::Value(Value::String(s))) => {
                match F::from_name(field_name.as_str()) {
                    None => Err(FilterError::UnknownField(field_name.clone())),
                    Some(field) => {
                        if field.kind() != FieldKind::String {
                            Err(
                                FilterError::TypeMismatch {
                                    field: field_name.clone(),
                                    expected: FieldKind::String,
                                    got: owned("non-string"),
                                },
                            )
                        } else {
                            Ok(FilterNode::binary(field, op, Value::String(s.clone())))
                        }
                    },
                }
            },
            _ => Err(unsupported),
        },
    }
}

fn convert_in<F: FilterField>(left: &Expr, list: &Vec<Expr>) -> (r: Result<FilterNode<F>, FilterError>)
    ensures
        filter_result_model(r) == in_spec::<F>(left@, Expr::models(list@)),
{
    proof {
        Expr::lemma_models(list@);
    }
    let ghost ms = Expr::models(list@);
    let field_name = match left {
        Expr::Identifier(name) => name,
        _ => {
            return Err(
                FilterError::InvalidExpression(
                    owned("IN operator requires a field identifier on the left side"),
                ),
            );
        },
    };
    let field = match F::from_name(field_name.as_str()) {
        None => {
            return Err(FilterError::UnknownField(field_name.clone()));
        },
        Some(f) => f,
    };
    let mut values: Vec<Value> = Vec::new();
    assert(value_models(values@) =~= Seq::<ValueModel>::empty());
    let mut i: usize = 0;
    while i < list.len()
        invariant
            i <= list@.len(),
            left@ == ExprModel::Identifier(field_name@),
            Some(field) == field_by_name::<F>(field_name@),
            ms == Expr::models(list@),
            ms.len() == list@.len(),
            forall|j: int| 0 <= j < list@.len() ==> #[trigger] ms[j] == list@[j].model(),
            in_values_spec(field, ms, i as int) == Ok::<Seq<ValueModel>, FilterErrorModel>(
                value_models(values@),
            ),
        decreases list.len() - i,
    {
        match &list[i] {
            Expr::Value(val) => {
                assert(ms[i as int] == ExprModel::Value(val@));
                match validate_value_type(field, val) {
                    Err(e) => {
                        proof {
                            assert(in_values_spec(field, ms, i as int + 1) == Err::<Seq<ValueModel>, FilterErrorModel>(e@));
                            lemma_in_values_err_stable(field, ms, i as int + 1, ms.len() as int);
                        }
                        return Err(e);
                    },
                    Ok(()) => {},
                }
                let ghost prev = values@;
                values.push(val.copy());
                assert(value_models(values@) =~= value_models(prev).push(val@));
            },
            _ => {
                proof {
                    lemma_in_values_err_stable(field, ms, i as int + 1, ms.len() as int);
                }
                return Err(FilterError::InvalidExpression(owned("IN operator values must be literals")));
            },
        }
        i += 1;
    }
    if values.len() == 0 {
        return Err(FilterError::InvalidExpression(owned("IN operator requires at least one value")));
    }
    Ok(FilterNode::InList { field, values })
}

proof fn lemma_in_values_err_stable<F: FilterField>(f: F, list: Seq<ExprModel>, n: int, m: int)
    requires
        0 <= n <= m,
        in_values_spec(f, list, n) is Err,
    ensures
        in_values_spec(f, list, m) == in_values_spec(f, list, n),
    decreases m - n,
{
    if n < m {
        lemma_in_values_err_stable(f, list, n, m - 1);
    }
}

/// Converts a parsed filter expression into a typed filter over `F`.
pub fn convert_expr_to_filter_node<F: FilterField>(expr: &Expr) -> (r: Result<FilterNode<F>, FilterError>)
    ensures
        filter_result_model(r) == convert_spec::<F>(expr@),
    decreases expr,
{
    match expr {
        Expr::And(left, right) => {
            let l = match convert_expr_to_filter_node::<F>(left) {
                Err(e) => {
                    return Err(e);
                },
                Ok(n) => n,
            };
            let r = match convert_expr_to_filter_node::<F>(right) {
                Err(e) => {
                    return Err(e);
                },
                Ok(n) => n,
            };
            proof {
                lemma_two_models(l, r);
            }
            Ok(FilterNode::and(vec![l, r]))
        },
        Expr::Or(left, right) => {
            let l = match convert_expr_to_filter_node::<F>(left) {
                Err(e) => {
                    return Err(e);
                },
                Ok(n) => n,
            };
            let r = match convert_expr_to_filter_node::<F>(right) {
                Err(e) => {
                    return Err(e);
                },
                Ok(n) => n,
            };
            proof {
                lemma_two_models(l, r);
            }
            Ok(FilterNode::or(vec![l, r]))
        },
        Expr::Not(inner) => {
            let n = match convert_expr_to_filter_node::<F>(inner) {
                Err(e) => {
                    return Err(e);
                },
                Ok(n) => n,
            };
            Ok(FilterNode::not(n))
        },
        Expr::Compare(left, op, right) => {
            match &**left {
                Expr::Identifier(name) => match &**right {
                    Expr::Value(val) => {
                        assert(expr@ == ExprModel::Compare(Box::new(left@), *op, Box::new(right@)));
                        assert(left@ == ExprModel::Identifier(name@));
                        assert(right@ == ExprModel::Value(val@));
                        let field = match F::from_name(name.as_str()) {
                            None => {
                                return Err(FilterError::UnknownField(name.clone()));
                            },
                            Some(f) => f,
                        };
                        assert(Some(field) == field_by_name::<F>(name@));
                        match validate_value_type(field, val) {
                            Err(e) => {
                                return Err(e);
                            },
                            Ok(()) => {},
                        }
                        let filter_op = match op {
                            CompareOperator::Eq => FilterOp::Eq,
                            CompareOperator::Ne => FilterOp::Ne,
                            CompareOperator::Gt => FilterOp::Gt,
                            CompareOperator::Ge => FilterOp::Ge,
                            CompareOperator::Lt => FilterOp::Lt,
                            CompareOperator::Le => FilterOp::Le,
                        };
                        Ok(FilterNode::binary(field, filter_op, val.copy()))
                    },
                    Expr::Identifier(_) => Err(FilterError::FieldToFieldComparison),
                    _ => Err(
                        FilterError::InvalidExpression(owned("Comparison must be between field and value")),
                    ),
                },
                _ => Err(FilterError::InvalidExpression(owned("Comparison must be between field and value"))),
            }
        },
        Expr::Function(func_name, args) => convert_function::<F>(func_name, args),
        Expr::In(left, list) => convert_in::<F>(left, list),
        Expr::Identifier(name) => Err(FilterError::BareIdentifier(name.clone())),
        Expr::Value(_) => Err(FilterError::BareLiteral),
    }
}

/// The result of converting filter text.
pub type FilterResult<T> = Result<T, FilterError>;

/// The typed filter that the text `raw` spells, or why there is none.
pub open spec fn parse_filter_spec<F: FilterField>(raw: Seq<char>) -> Result<FilterNodeModel<F>, FilterErrorModel> {
    match parse_spec(raw) {
        None => Err(FilterErrorModel::InvalidExpression(parse_error_text())),
        Some(e) => convert_spec::<F>(e),
    }
}

/// Parses `OData` filter text into a typed filter over `F`.
pub fn parse_odata_filter<F: FilterField>(raw: &str) -> (r: FilterResult<FilterNode<F>>)
    ensures
        filter_result_model(r) == parse_filter_spec::<F>(raw@),
{
    match parse_str(raw) {
        Err(e) => Err(FilterError::InvalidExpression(e.to_string())),
        Ok(ast) => convert_expr_to_filter_node::<F>(&ast),
    }
}

/// A comparison `name op v` becomes a typed comparison with the same
/// operator: the typed operator is spelled as `op` is spelled in filter text
/// (`eq`, `ne`, `gt`, `ge`, `lt`, `le`), and that spelling reads back as
/// `op`. The field is the one `name` designates and the value is `v`.
pub proof fn lemma_comparison_keeps_operator<F: FilterField>(name: Seq<char>, op: CompareOperator, v: ValueModel)
    ensures
        convert_spec::<F>(
            ExprModel::Compare(Box::new(ExprModel::Identifier(name)), op, Box::new(ExprModel::Value(v))),
        ) matches Ok(n) ==> {
            &&& n matches FilterNodeModel::Binary { field, op: typed, value }
            &&& filter_op_text(typed) == compare_op_word(op)
            &&& compare_op_of(TokenModel::Word(filter_op_text(typed))) == Some(op)
            &&& Some(field) == field_by_name::<F>(name)
            &&& value == v
        },
{
    lemma_words_distinct();
}

/// Comparisons that differ only in their operator never become the same
/// typed filter: the conversion of operators loses nothing.
pub proof fn lemma_comparison_operator_injective<F: FilterField>(
    name: Seq<char>,
    a: CompareOperator,
    b: CompareOperator,
    v: ValueModel,
)
    requires
        convert_spec::<F>(
            ExprModel::Compare(Box::new(ExprModel::Identifier(name)), a, Box::new(ExprModel::Value(v))),
        ) is Ok,
        convert_spec::<F>(
            ExprModel::Compare(Box::new(ExprModel::Identifier(name)), a, Box::new(ExprModel::Value(v))),
        ) == convert_spec::<F>(
            ExprModel::Compare(Box::new(ExprModel::Identifier(name)), b, Box::new(ExprModel::Value(v))),
        ),
    ensures
        a == b,
{
    lemma_comparison_keeps_operator::<F>(name, a, v);
    lemma_comparison_keeps_operator::<F>(name, b, v);
}

/// A string function call becomes a typed filter whose operator is spelled
/// as the function's name in lower case, over the field its first argument
/// names and the text its second argument holds.
pub proof fn lemma_function_keeps_name<F: FilterField>(name: Seq<char>, args: Seq<ExprModel>)
    ensures
        convert_spec::<F>(ExprModel::Function(name, args)) matches Ok(n) ==> {
            &&& n matches FilterNodeModel::Binary { field, op, value }
            &&& filter_op_text(op) == ascii_lower_seq(name)
            &&& args.len() == 2
            &&& args[0] matches ExprModel::Identifier(f) && Some(field) == field_by_name::<F>(f)
            &&& args[1] == ExprModel::Value(value) && value is String
        },
{
}

proof fn lemma_in_values<F: FilterField>(f: F, list: Seq<ExprModel>, n: int)
    requires
        0 <= n <= list.len(),
    ensures
        in_values_spec(f, list, n) matches Ok(vs) ==> vs.len() == n && forall|i: int|
            0 <= i < n ==> list[i] == ExprModel::Value(#[trigger] vs[i]),
    decreases n,
{
    if n > 0 {
        lemma_in_values(f, list, n - 1);
    }
}

/// `name in (list)` becomes a membership test on the field `name`
/// designates, over the literals of `list`, every one of them, in order.
pub proof fn lemma_in_keeps_values<F: FilterField>(name: Seq<char>, list: Seq<ExprModel>)
    ensures
        convert_spec::<F>(ExprModel::In(Box::new(ExprModel::Identifier(name)), list)) matches Ok(n) ==> {
            &&& n matches FilterNodeModel::InList { field, values }
            &&& Some(field) == field_by_name::<F>(name)
            &&& values.len() == list.len() > 0
            &&& forall|i: int| 0 <= i < list.len() ==> list[i] == ExprModel::Value(#[trigger] values[i])
        },
{
    if let Some(f) = field_by_name::<F>(name) {
        lemma_in_values(f, list, list.len() as int);
    }
}

/// `and`, `or` and `not` become the typed connective spelled the same way,
/// over the conversions of their operands, in order.
pub proof fn lemma_connectives_keep_shape<F: FilterField>(l: ExprModel, r: ExprModel)
    ensures
        convert_spec::<F>(ExprModel::And(Box::new(l), Box::new(r))) matches Ok(n) ==> {
            &&& n matches FilterNodeModel::Composite { op, children }
            &&& filter_op_text(op) == "and"@
            &&& children == seq![convert_spec::<F>(l)->Ok_0, convert_spec::<F>(r)->Ok_0]
            &&& convert_spec::<F>(l) is Ok && convert_spec::<F>(r) is Ok
        },
        convert_spec::<F>(ExprModel::Or(Box::new(l), Box::new(r))) matches Ok(n) ==> {
            &&& n matches FilterNodeModel::Composite { op, children }
            &&& filter_op_text(op) == "or"@
            &&& children == seq![convert_spec::<F>(l)->Ok_0, convert_spec::<F>(r)->Ok_0]
            &&& convert_spec::<F>(l) is Ok && convert_spec::<F>(r) is Ok
        },
        convert_spec::<F>(ExprModel::Not(Box::new(l))) matches Ok(n) ==> convert_spec::<F>(l) is Ok && n
            == FilterNodeModel::Not(Box::new(convert_spec::<F>(l)->Ok_0)),
{
}

} // verus!
