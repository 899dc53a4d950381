use hasura::{Condition, Conditions, Field, Literal, Operator};

fn text(value: &str) -> Literal {
    Literal::Text(value.to_string())
}

fn leaf(field: &str, operator: Operator, value: Literal) -> Conditions {
    Conditions::single(Field::new(field), Condition::new(operator, value).unwrap())
}

#[test]
fn operators_are_gated_by_type() {
    let scalars = [
        Literal::Bool(true),
        Literal::Unsigned(1),
        Literal::Signed(-1),
        Literal::Decimal("1.5".to_string()),
        text("a"),
    ];
    for value in scalars {
        let is_text = matches!(value, Literal::Text(_));
        let is_bool = matches!(value, Literal::Bool(_));
        assert!(Operator::Eq.accepts(&value));
        assert!(Operator::Neq.accepts(&value));
        assert_eq!(Operator::Gt.accepts(&value), !is_bool);
        assert_eq!(Operator::Gte.accepts(&value), !is_bool);
        assert_eq!(Operator::Lt.accepts(&value), !is_bool);
        assert_eq!(Operator::Like.accepts(&value), is_text);
        assert_eq!(Operator::Ilike.accepts(&value), is_text);
    }
    assert!(Condition::new(Operator::Eq, Literal::Null).is_none());
    assert!(Condition::new(Operator::Eq, Literal::List(vec![])).is_none());
    assert!(Condition::new(Operator::Eq, Literal::Object(vec![])).is_none());
    assert!(Condition::new(Operator::Like, Literal::Unsigned(3)).is_none());
    assert!(Condition::new(Operator::Gt, Literal::Bool(false)).is_none());
}

#[test]
fn condition_text() {
    let cases = [
        (Operator::Eq, "_eq"),
        (Operator::Neq, "_neq"),
        (Operator::Gt, "_gt"),
        (Operator::Gte, "_gte"),
        (Operator::Lt, "_lt"),
        (Operator::Ilike, "_ilike"),
        (Operator::Like, "_like"),
    ];
    for (operator, name) in cases {
        let condition = Condition::new(operator, text("a\"b")).unwrap();
        assert_eq!(condition.to_string(), format!("{} : \"a\\\"b\"", name));
    }
    assert_eq!(Condition::new(Operator::Eq, Literal::Bool(false)).unwrap().to_string(), "_eq : false");
    assert_eq!(Condition::new(Operator::Gt, Literal::Unsigned(102)).unwrap().to_string(), "_gt : \"102\"");
}

#[test]
fn leaf_text() {
    let one = leaf("name", Operator::Eq, text("apple"));
    assert_eq!(one.to_string(), "name: { _eq : \"apple\" }");

    let many = Conditions::many(
        Field::new("price"),
        vec![
            Condition::new(Operator::Gte, Literal::Unsigned(1)).unwrap(),
            Condition::new(Operator::Lt, Literal::Unsigned(9)).unwrap(),
        ],
    );
    assert_eq!(many.to_string(), "price: { _gte : \"1\", _lt : \"9\" }");
}

#[test]
fn combinators_are_binary() {
    let a = leaf("a", Operator::Eq, Literal::Unsigned(1));
    let b = leaf("b", Operator::Eq, Literal::Unsigned(2));
    let c = leaf("c", Operator::Eq, Literal::Unsigned(3));
    assert_eq!(
        a.and(b).or(c.not()).to_string(),
        "_or{ _and{ a: { _eq : \"1\" }, b: { _eq : \"2\" } }, _not{ c: { _eq : \"3\" } } }"
    );
}

#[test]
fn empty_is_the_identity() {
    let tree = || leaf("a", Operator::Eq, Literal::Unsigned(1));
    let expected = tree().to_string();
    assert_eq!(Conditions::Empty.to_string(), "");
    assert_eq!(Conditions::Empty.and(tree()).to_string(), expected);
    assert_eq!(tree().and(Conditions::Empty).to_string(), expected);
    assert_eq!(Conditions::Empty.or(tree()).to_string(), expected);
    assert_eq!(tree().or(Conditions::Empty).to_string(), expected);
    assert_eq!(Conditions::Empty.and(Conditions::Empty).to_string(), "");
    assert!(Conditions::Empty.or(Conditions::Empty).is_vacant());
    assert!(!tree().is_vacant());
}

#[test]
fn negation_is_always_written() {
    let tree = || leaf("a", Operator::Eq, Literal::Unsigned(1));
    assert_eq!(tree().not().to_string(), "_not{ a: { _eq : \"1\" } }");
    assert_eq!(Conditions::Empty.not().to_string(), "_not{  }");
    assert!(!Conditions::Empty.not().is_vacant());
    assert!(!Conditions::Empty.or(Conditions::Empty.not()).is_vacant());
    assert_eq!(Conditions::Empty.or(Conditions::Empty.not()).to_string(), "_not{  }");
    assert_eq!(
        Conditions::Empty.not().and(tree()).to_string(),
        "_and{ _not{  }, a: { _eq : \"1\" } }"
    );
    assert_eq!(Conditions::Empty.not().not().to_string(), "_not{ _not{  } }");
}

#[test]
fn and_nests_to_the_left() {
    let a = leaf("a", Operator::Eq, Literal::Unsigned(1));
    let b = leaf("b", Operator::Eq, Literal::Unsigned(2));
    let c = leaf("c", Operator::Eq, Literal::Unsigned(3));
    assert_eq!(
        a.and(b).and(c).to_string(),
        "_and{ _and{ a: { _eq : \"1\" }, b: { _eq : \"2\" } }, c: { _eq : \"3\" } }"
    );
    let not_empty = Conditions::Empty.not();
    let b = leaf("b", Operator::Eq, Literal::Unsigned(2));
    let c = leaf("c", Operator::Eq, Literal::Unsigned(3));
    assert_eq!(
        not_empty.and(b).and(c).to_string(),
        "_and{ _and{ _not{  }, b: { _eq : \"2\" } }, c: { _eq : \"3\" } }"
    );
}
