use modkit_core::ast::{CompareOperator, Expr, Value};
use modkit_core::filter::{parse_odata_filter, FieldKind, FilterError, FilterField, FilterNode, FilterOp};
use modkit_core::odata_filters::parse_str;

#[derive(Clone, Copy, Debug, PartialEq, Eq, Hash)]
enum Field {
    Name,
    Depth,
    CreatedAt,
    Id,
}

impl FilterField for Field {
    const FIELDS: &'static [Self] = &[Self::Name, Self::Depth, Self::CreatedAt, Self::Id];

    fn name(&self) -> &'static str {
        match self {
            Self::Name => "name",
            Self::Depth => "hierarchy/depth",
            Self::CreatedAt => "created_at",
            Self::Id => "id",
        }
    }

    fn kind(&self) -> FieldKind {
        match self {
            Self::Name => FieldKind::String,
            Self::Depth => FieldKind::I64,
            Self::CreatedAt => FieldKind::DateTimeUtc,
            Self::Id => FieldKind::Uuid,
        }
    }
}

#[test]
fn and_binds_tighter_than_or() {
    let e = parse_str("a eq 1 or b eq 2 and c eq 3").unwrap();
    match e {
        Expr::Or(l, r) => {
            assert!(matches!(*l, Expr::Compare(_, CompareOperator::Eq, _)));
            assert!(matches!(*r, Expr::And(_, _)));
        }
        other => panic!("unexpected {other:?}"),
    }
}

#[test]
fn literals_are_classified() {
    assert!(matches!(parse_str("x eq -1.5").unwrap(), Expr::Compare(_, _, v) if matches!(*v, Expr::Value(Value::Number(ref n)) if n == "-1.5")));
    assert!(matches!(parse_str("x eq true").unwrap(), Expr::Compare(_, _, v) if matches!(*v, Expr::Value(Value::Bool(true)))));
    assert!(matches!(parse_str("x eq null").unwrap(), Expr::Compare(_, _, v) if matches!(*v, Expr::Value(Value::Null))));
    assert!(matches!(parse_str("x eq 2024-01-31").unwrap(), Expr::Compare(_, _, v) if matches!(*v, Expr::Value(Value::Date(_)))));
    assert!(matches!(parse_str("x eq 2024-01-31T10:00:00Z").unwrap(), Expr::Compare(_, _, v) if matches!(*v, Expr::Value(Value::DateTime(_)))));
    assert!(matches!(parse_str("x eq 12:30:00").unwrap(), Expr::Compare(_, _, v) if matches!(*v, Expr::Value(Value::Time(_)))));
    assert!(matches!(parse_str("x eq 123e4567-e89b-12d3-a456-426614174000").unwrap(), Expr::Compare(_, _, v) if matches!(*v, Expr::Value(Value::Uuid(_)))));
    assert!(matches!(parse_str("x eq 'it''s'").unwrap(), Expr::Compare(_, _, v) if matches!(*v, Expr::Value(Value::String(ref s)) if s == "it's")));
}

#[test]
fn malformed_texts_are_refused() {
    for t in ["", "name eq", "name eq 'open", "(name eq 'a'", "name eq 'a')", "1.", "name eq and", "a-b eq 1"] {
        assert!(parse_str(t).is_err(), "{t:?} should not parse");
    }
}

#[test]
fn in_list_is_typed() {
    let r = parse_odata_filter::<Field>("name in ('a', 'b')");
    match r {
        Ok(FilterNode::InList { field: Field::Name, values }) => assert_eq!(values.len(), 2),
        other => panic!("unexpected {other:?}"),
    }
    let r = parse_odata_filter::<Field>("name in ()");
    assert!(matches!(r, Err(FilterError::InvalidExpression(ref m)) if m == "IN operator requires at least one value"));
    let r = parse_odata_filter::<Field>("name in ('a', 3)");
    assert!(matches!(r, Err(FilterError::TypeMismatch { ref got, .. }) if got == "3"));
    let r = parse_odata_filter::<Field>("name in ('a', other)");
    assert!(matches!(r, Err(FilterError::InvalidExpression(ref m)) if m == "IN operator values must be literals"));
}

#[test]
fn property_paths_resolve_by_last_segment() {
    let r = parse_odata_filter::<Field>("hierarchy/depth eq 2");
    assert!(matches!(r, Ok(FilterNode::Binary { field: Field::Depth, op: FilterOp::Eq, .. })));
    let r = parse_odata_filter::<Field>("x/NAME eq 'a'");
    assert!(matches!(r, Ok(FilterNode::Binary { field: Field::Name, .. })));
    assert_eq!(Field::from_name("NAME"), Some(Field::Name));
    assert_eq!(Field::from_name("depth"), None);
    assert_eq!(Field::from_name("a/b/id"), Some(Field::Id));
}

#[test]
fn string_functions_need_string_fields() {
    let r = parse_odata_filter::<Field>("StartsWith(name, 'a')");
    assert!(matches!(r, Ok(FilterNode::Binary { op: FilterOp::StartsWith, .. })));
    let r = parse_odata_filter::<Field>("endswith(id, 'a')");
    assert!(matches!(r, Err(FilterError::TypeMismatch { ref field, expected: FieldKind::String, ref got }) if field == "id" && got == "non-string"));
    let r = parse_odata_filter::<Field>("contains(name, 3)");
    assert!(matches!(r, Err(FilterError::UnsupportedOperation(ref m)) if m == "Function 'contains'"));
}

#[test]
fn comparison_needs_field_and_value() {
    let r = parse_odata_filter::<Field>("'a' eq name");
    assert!(matches!(r, Err(FilterError::InvalidExpression(ref m)) if m == "Comparison must be between field and value"));
    let r = parse_odata_filter::<Field>("created_at gt 2024-01-01T00:00:00Z");
    assert!(matches!(r, Ok(FilterNode::Binary { op: FilterOp::Gt, .. })));
    let r = parse_odata_filter::<Field>("created_at gt 5");
    assert!(matches!(r, Err(FilterError::TypeMismatch { expected: FieldKind::DateTimeUtc, .. })));
}

#[test]
fn display_of_kinds_and_ops() {
    assert_eq!(FieldKind::DateTimeUtc.to_string(), "DateTimeUtc");
    assert_eq!(FilterOp::StartsWith.to_string(), "startswith");
    assert_eq!(Value::String("x".to_owned()).to_string(), "'x'");
}

#[test]
fn canonical_text_parses_back() {
    let e = parse_str("( ( name ) eq ( 'it''s' ) ) and ( not ( has ( tags , 'a' ) ) ) ").unwrap();
    match e {
        Expr::And(l, r) => {
            match *l {
                Expr::Compare(a, CompareOperator::Eq, b) => {
                    assert!(matches!(*a, Expr::Identifier(ref n) if n == "name"));
                    assert!(matches!(*b, Expr::Value(Value::String(ref s)) if s == "it's"));
                }
                other => panic!("unexpected {other:?}"),
            }
            match *r {
                Expr::Not(x) => match *x {
                    Expr::Function(f, args) => {
                        assert_eq!(f, "has");
                        assert_eq!(args.len(), 2);
                        assert!(matches!(args[0], Expr::Identifier(ref n) if n == "tags"));
                        assert!(matches!(args[1], Expr::Value(Value::String(ref s)) if s == "a"));
                    }
                    other => panic!("unexpected {other:?}"),
                },
                other => panic!("unexpected {other:?}"),
            }
        }
        other => panic!("unexpected {other:?}"),
    }
}

#[test]
fn canonical_text_of_in_list_parses_back() {
    let e = parse_str("( depth ) in ( 1 , 2 , 3 ) ").unwrap();
    match e {
        Expr::In(l, items) => {
            assert!(matches!(*l, Expr::Identifier(ref n) if n == "depth"));
            assert_eq!(items.len(), 3);
            assert!(matches!(items[2], Expr::Value(Value::Number(ref n)) if n == "3"));
        }
        other => panic!("unexpected {other:?}"),
    }
}
