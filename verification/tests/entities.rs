use hasura::{
    Attribute, Attributes, Column, Condition, Conditions, Entity, Entry, Field, Fields, Literal, Member, Operator,
    Scalar,
};

fn text(value: &str) -> Literal {
    Literal::Text(value.to_string())
}

fn member(name: &str, value: Literal) -> Member {
    Member { name: name.to_string(), value, skip_if_empty: true }
}

fn article() -> Entity {
    Entity::new(
        "articles",
        vec![Column::scalar("name"), Column::scalar("category"), Column::scalar("price")],
        vec![("name".to_string(), Scalar::Text), ("category".to_string(), Scalar::Text)],
    )
}

fn store() -> Entity {
    Entity::new(
        "stores",
        vec![Column::scalar("id"), Column::relation("articles", article())],
        vec![("id".to_string(), Scalar::Unsigned)],
    )
}

#[test]
fn primary_key_holds_the_declared_components() {
    let entity = article();
    let pk = entity.pk(vec![text("apple"), text("fruits")]).unwrap();
    assert!(entity.identifies(&pk));
    assert_eq!(hasura::to_string(&pk, false), "name:\"apple\",category:\"fruits\"");
    assert_eq!(hasura::to_string(&pk, true), "{name:\"apple\",category:\"fruits\"}");
}

#[test]
fn primary_key_is_refused_on_wrong_components() {
    let entity = article();
    assert!(entity.pk(vec![text("apple")]).is_none());
    assert!(entity.pk(vec![text("apple"), text("fruits"), text("more")]).is_none());
    assert!(entity.pk(vec![text("apple"), Literal::Unsigned(1)]).is_none());
    assert!(entity.pk(vec![Literal::Null, text("fruits")]).is_none());
    assert!(store().pk(vec![Literal::Unsigned(7)]).is_some());
    assert!(store().pk(vec![Literal::Signed(7)]).is_none());
}

#[test]
fn identifies_only_keys() {
    let entity = article();
    assert!(!entity.identifies(&text("apple")));
    let wrong_name = Literal::Object(vec![
        Member { name: "name".to_string(), value: text("a"), skip_if_empty: false },
        Member { name: "price".to_string(), value: text("b"), skip_if_empty: false },
    ]);
    assert!(!entity.identifies(&wrong_name));
    let skippable = Literal::Object(vec![member("name", text("a")), member("category", text("b"))]);
    assert!(!entity.identifies(&skippable));
}

#[test]
fn covers_declared_fields_only() {
    let store = store();
    assert!(store.covers(&store.all()));
    assert!(store.covers(&Fields { inner: vec![] }));
    assert!(store.covers(&Fields { inner: vec![Field::new("articles")] }));
    assert!(!store.covers(&Fields { inner: vec![Field::new("name")] }));
    let nested = Field::recursive("articles", Fields { inner: vec![Field::new("price")] });
    assert!(store.covers_field(&nested));
    let wrong_nested = Field::recursive("articles", Fields { inner: vec![Field::new("id")] });
    assert!(!store.covers_field(&wrong_nested));
    let through_scalar = Field::recursive("id", Fields { inner: vec![] });
    assert!(!store.covers_field(&through_scalar));
}

#[test]
fn owns_conditions_on_its_fields() {
    let entity = article();
    let on = |name: &str| {
        Conditions::single(Field::new(name), Condition::new(Operator::Eq, text("x")).unwrap())
    };
    assert!(entity.owns(&Conditions::Empty));
    assert!(entity.owns(&on("name").and(on("price").not())));
    assert!(!entity.owns(&on("name").or(on("weight"))));
}

#[test]
fn accepts_rows_of_its_shape() {
    let entity = article();
    let row = Literal::Object(vec![member("name", text("a")), member("price", Literal::Unsigned(1))]);
    assert!(entity.accepts(&row));
    let stranger = Literal::Object(vec![member("weight", Literal::Unsigned(1))]);
    assert!(!entity.accepts(&stranger));
    assert!(!entity.accepts(&text("a")));
    let draft = article().draft(vec!["price".to_string()]);
    assert!(!draft.accepts(&row));
    assert!(draft.accepts(&Literal::Object(vec![member("price", Literal::Unsigned(1))])));
    assert!(draft.shapes(&"price".to_string()));
    assert!(!draft.shapes(&"name".to_string()));
}

#[test]
fn scalar_kinds() {
    assert!(Scalar::Bool.admits(&Literal::Bool(true)));
    assert!(Scalar::Unsigned.admits(&Literal::Unsigned(1)));
    assert!(Scalar::Signed.admits(&Literal::Signed(1)));
    assert!(Scalar::Decimal.admits(&Literal::Decimal("1.0".to_string())));
    assert!(Scalar::Text.admits(&text("a")));
    assert!(!Scalar::Text.admits(&Literal::Null));
    assert!(!Scalar::Unsigned.admits(&Literal::Signed(1)));
}

fn pair(key: &str, value: Option<&str>) -> Entry {
    Entry::Pair { key: Some(key.to_string()), value: value.map(|v| v.to_string()) }
}

fn list(entries: Vec<Entry>) -> Vec<Attribute> {
    vec![Attribute::List(entries)]
}

fn complaint(attrs: &[Attribute]) -> String {
    Attributes::from_syn_attrs(attrs).err().unwrap()
}

#[test]
fn attributes_are_read_in_order() {
    let attrs = list(vec![
        pair("name", Some("rounds")),
        pair("pk", Some("quiz_id")),
        pair("pk", Some("index")),
        pair("draft", Some("RoundDraft")),
    ]);
    let attributes = Attributes::from_syn_attrs(&attrs).unwrap();
    assert_eq!(attributes.name, "rounds");
    assert_eq!(attributes.pks, vec!["quiz_id".to_string(), "index".to_string()]);
    assert_eq!(attributes.draft, Some("RoundDraft".to_string()));

    let without_draft = list(vec![
        pair("name", Some("rounds")),
        pair("pk", Some("quiz_id")),
        pair("pk", Some("index")),
    ]);
    let attributes = Attributes::from_syn_attrs(&without_draft).unwrap();
    assert_eq!(attributes.name, "rounds");
    assert_eq!(attributes.pks, vec!["quiz_id".to_string(), "index".to_string()]);
    assert!(attributes.draft.is_none());

    let twice = list(vec![pair("name", Some("a")), Entry::Other, pair("name", Some("b"))]);
    let minimal = Attributes::from_syn_attrs(&twice).unwrap();
    assert_eq!(minimal.name, "b");
    assert!(minimal.pks.is_empty());
    assert!(minimal.draft.is_none());
}

#[test]
fn only_the_first_attribute_is_read() {
    let attrs = vec![
        Attribute::List(vec![pair("name", Some("first"))]),
        Attribute::Unreadable,
        Attribute::List(vec![pair("name", Some("second"))]),
    ];
    assert_eq!(Attributes::from_syn_attrs(&attrs).unwrap().name, "first");
}

#[test]
fn no_attribute_at_all() {
    assert_eq!(complaint(&[]), "must specify name in attributes");
}

#[test]
fn attribute_that_cannot_be_read_or_is_no_list() {
    assert_eq!(complaint(&[Attribute::Unreadable]), "invalid attribute");
    assert_eq!(complaint(&[Attribute::Plain]), "must be attribute list");
    let later_list = [Attribute::Plain, Attribute::List(vec![pair("name", Some("a"))])];
    assert_eq!(complaint(&later_list), "must be attribute list");
}

#[test]
fn attributes_are_refused() {
    let unknown =
        list(vec![pair("name", Some("q")), pair("colour", Some("red")), pair("other", Some("c"))]);
    assert_eq!(complaint(&unknown), "invalid attribute: colour");
    let no_string = list(vec![pair("pk", None), pair("name", Some("a"))]);
    assert_eq!(complaint(&no_string), "invalid attribute: pk");
    let no_key = list(vec![Entry::Pair { key: None, value: Some("a".to_string()) }]);
    assert_eq!(complaint(&no_key), "invalid name");
    assert_eq!(complaint(&list(vec![pair("pk", Some("id"))])), "no name found");
    assert_eq!(complaint(&list(vec![])), "no name found");
    assert_eq!(complaint(&list(vec![Entry::Other])), "no name found");
}
