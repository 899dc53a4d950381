use hasura::serializer::{to_string, Literal, Member};

fn member(name: &str, value: Literal) -> Member {
    Member { name: name.to_string(), value, skip_if_empty: true }
}

#[test]
fn none_is_null() {
    assert_eq!(to_string(&Literal::Null, true), "null");
    assert_eq!(to_string(&Literal::Null, false), "null");
}

#[test]
fn numbers_are_quoted() {
    assert_eq!(to_string(&Literal::Unsigned(0), true), "\"0\"");
    assert_eq!(to_string(&Literal::Unsigned(18446744073709551615), true), "\"18446744073709551615\"");
    assert_eq!(to_string(&Literal::Signed(-9223372036854775808), true), "\"-9223372036854775808\"");
    assert_eq!(to_string(&Literal::Signed(42), true), "\"42\"");
    assert_eq!(to_string(&Literal::decimal(format!("{}", 10.0_f64)).unwrap(), true), "\"10\"");
    assert_eq!(to_string(&Literal::decimal(format!("{}", -2.5_f64)).unwrap(), true), "\"-2.5\"");
}

#[test]
fn strings_are_escaped() {
    let text = Literal::Text("say \"hi\" \\ bye".to_string());
    assert_eq!(to_string(&text, true), "\"say \\\"hi\\\" \\\\ bye\"");
}

#[test]
fn structs_and_lists() {
    let object = Literal::Object(vec![
        member("name", Literal::Text("John".to_string())),
        member("id", Literal::Null),
        member("tags", Literal::List(vec![Literal::Bool(true), Literal::Unsigned(7)])),
    ]);
    assert_eq!(to_string(&object, true), "{name:\"John\",tags:[true,\"7\"]}");
    assert_eq!(to_string(&object, false), "name:\"John\",tags:[true,\"7\"]");
}

#[test]
fn decimal_takes_numerals_only() {
    for numeral in ["0", "10", "-7", "2.5", "-0.125", "18446744073709551616", "007"] {
        assert!(hasura::text::numeral(numeral), "{numeral}");
        assert!(Literal::decimal(numeral.to_string()).is_some(), "{numeral}");
    }
    for other in ["", "-", ".", "1.", ".5", "-.5", "1.2.3", "1e5", "NaN", "inf", "--1", "1-", "+1", " 1", "1\"", "٣"] {
        assert!(!hasura::text::numeral(other), "{other}");
        assert!(Literal::decimal(other.to_string()).is_none(), "{other}");
    }
    assert!(Literal::decimal(format!("{}", f64::NAN)).is_none());
    assert!(Literal::decimal(format!("{}", f64::INFINITY)).is_none());
    assert!(Literal::decimal(format!("{}", 1e21_f64)).is_some());
}

#[test]
fn members_are_skipped_only_when_asked_and_empty() {
    let kept = Member { name: "a".to_string(), value: Literal::Null, skip_if_empty: false };
    let skipped = Member { name: "b".to_string(), value: Literal::Null, skip_if_empty: true };
    let nested_empty = member("c", Literal::Object(vec![member("d", Literal::Null)]));
    let empty_list = member("e", Literal::List(vec![]));
    let object = Literal::Object(vec![kept, skipped, nested_empty, empty_list]);
    assert_eq!(to_string(&object, true), "{a:null,e:[]}");
    assert!(Literal::Null.empty());
    assert!(Literal::Object(vec![]).empty());
    assert!(!Literal::List(vec![]).empty());
    assert!(!Literal::Text(String::new()).empty());
    assert_eq!(to_string(&Literal::Object(vec![]), true), "{}");
    assert_eq!(to_string(&Literal::Object(vec![]), false), "");
    assert_eq!(to_string(&Literal::List(vec![Literal::Null, Literal::Bool(false)]), false), "[null,false]");
}

#[test]
fn well_formed_literals_hold_numerals_only() {
    assert!(Literal::Null.well_formed());
    assert!(Literal::Text("NaN".to_string()).well_formed());
    assert!(Literal::Decimal("-2.5".to_string()).well_formed());
    assert!(!Literal::Decimal("NaN".to_string()).well_formed());
    assert!(!Literal::Decimal("1\"".to_string()).well_formed());
    let deep = |number: &str| {
        Literal::Object(vec![member(
            "list",
            Literal::List(vec![Literal::Unsigned(1), Literal::Decimal(number.to_string())]),
        )])
    };
    assert!(deep("0.5").well_formed());
    assert!(!deep("0.5e3").well_formed());
    assert!(Literal::decimal("7.25".to_string()).unwrap().well_formed());
    assert_eq!(to_string(&deep("0.5"), true), "{list:[\"1\",\"0.5\"]}");
}
