use hasura::{
    construct_query, Braced, Builder, Column, Condition, Conditions, Delete, DeleteByPk, Entity,
    Field, Fields, Flattened, Insert, InsertOne, Literal, Maybe, Member, OnConflict, Operator,
    OrderBy, Query, QueryByPk, Render, Scalar, Separalized, Separated, Serialized, Update,
    UpdateByPk,
};

fn text(value: &str) -> Literal {
    Literal::Text(value.to_string())
}

fn member(name: &str, value: Literal) -> Member {
    Member { name: name.to_string(), value, skip_if_empty: true }
}

fn article() -> Entity {
    Entity::new(
        "articles",
        vec![Column::scalar("name"), Column::scalar("category"), Column::scalar("price")],
        vec![("name".to_string(), Scalar::Text), ("category".to_string(), Scalar::Text)],
    )
}

fn apple() -> Literal {
    Literal::Object(vec![
        member("name", text("apple")),
        member("category", text("fruits")),
        member("price", Literal::Unsigned(7)),
    ])
}

fn by_name() -> Conditions {
    Conditions::single(Field::new("name"), Condition::new(Operator::Eq, text("apple")).unwrap())
}

fn fields() -> Fields {
    Fields { inner: vec![Field::new("a"), Field::new("b")] }
}

#[test]
fn body_follows_the_two_flags() {
    let returning = fields();
    let build = |affected: bool, explicit: bool| {
        Builder::new("op".to_string(), &returning).affected(affected).explicit(explicit).write()
    };
    assert_eq!(build(false, false), "op { a b }");
    assert_eq!(build(false, true), "op { returning { a b } }");
    assert_eq!(build(true, false), "op { a b affected_rows }");
    assert_eq!(build(true, true), "op { returning { a b } affected_rows }");
}

#[test]
fn parameters_are_joined_in_parentheses() {
    let returning = fields();
    let limit = 5u64;
    let one = Builder::new("op".to_string(), &returning).param("limit", &limit).write();
    assert_eq!(one, "op(limit: 5) { a b }");
    let value = text("x");
    let two = Builder::new("op".to_string(), &returning)
        .param("limit", &limit)
        .param("object", &Serialized(&value))
        .write();
    assert_eq!(two, "op(limit: 5, object: \"x\") { a b }");
}

#[test]
fn primary_key_stands_first() {
    let returning = fields();
    let pk = Literal::Object(vec![member("id", Literal::Unsigned(3))]);
    let limit = 1u64;
    let alone = Builder::new("op".to_string(), &returning).pk(&Flattened(&pk)).write();
    assert_eq!(alone, "op(id:\"3\", ) { a b }");
    let with_param =
        Builder::new("op".to_string(), &returning).pk(&Flattened(&pk)).param("limit", &limit).write();
    assert_eq!(with_param, "op(id:\"3\", limit: 1) { a b }");
}

#[test]
fn empty_conditions_are_no_parameter() {
    let returning = fields();
    let empty = Conditions::Empty;
    assert!(Braced(&empty).maybe().is_none());
    let built = Builder::new("op".to_string(), &returning).maybe("where", &Braced(&empty)).write();
    assert_eq!(built, "op { a b }");
    let given = by_name();
    let built = Builder::new("op".to_string(), &returning).maybe("where", &Braced(&given)).write();
    assert_eq!(built, "op(where: { name: { _eq : \"apple\" } }) { a b }");
}

#[test]
fn empty_ordering_is_no_parameter() {
    let returning = fields();
    let none: Vec<OrderBy> = vec![];
    assert!(Separated(none.as_slice()).maybe().is_none());
    let built =
        Builder::new("op".to_string(), &returning).maybe("order_by", &Separated(none.as_slice())).write();
    assert_eq!(built, "op { a b }");
    let some = vec![OrderBy::Asc(Field::new("a")), OrderBy::DescNullsLast(Field::new("b"))];
    let built =
        Builder::new("op".to_string(), &returning).maybe("order_by", &Separated(some.as_slice())).write();
    assert_eq!(built, "op(order_by: a: asc, b: desc_nulls_last) { a b }");
}

#[test]
fn empty_object_list_is_no_parameter() {
    let returning = fields();
    let none: Vec<Literal> = vec![];
    assert!(Separalized(none.as_slice()).maybe().is_none());
    let built =
        Builder::new("op".to_string(), &returning).maybe("objects", &Separalized(none.as_slice())).write();
    assert_eq!(built, "op { a b }");
    let some = vec![Literal::Unsigned(1), text("b")];
    assert_eq!(Separalized(some.as_slice()).render(), "[\"1\", \"b\"]");
}

#[test]
fn vector_is_written_unless_empty() {
    let returning = fields();
    let none: Vec<OrderBy> = vec![];
    let some = vec![OrderBy::Asc(Field::new("a"))];
    let built = Builder::new("op".to_string(), &returning)
        .vector("first", &Separated(none.as_slice()))
        .vector("second", &Separated(some.as_slice()))
        .vector("where", &Conditions::Empty)
        .write();
    assert_eq!(built, "op(second: a: asc) { a b }");
}

#[test]
fn absent_option_is_no_parameter() {
    let returning = fields();
    let absent: Option<u64> = None;
    let present: Option<u64> = Some(0);
    let built = Builder::new("op".to_string(), &returning)
        .maybe("limit", &absent)
        .maybe("offset", &present)
        .write();
    assert_eq!(built, "op(offset: 0) { a b }");
}

#[test]
fn six_orders() {
    let field = || Field::new("name");
    assert_eq!(OrderBy::Asc(field()).to_string(), "name: asc");
    assert_eq!(OrderBy::AscNullsFirst(field()).to_string(), "name: asc_nulls_first");
    assert_eq!(OrderBy::AscNullsLast(field()).to_string(), "name: asc_nulls_last");
    assert_eq!(OrderBy::Desc(field()).to_string(), "name: desc");
    assert_eq!(OrderBy::DescNullsFirst(field()).to_string(), "name: desc_nulls_first");
    assert_eq!(OrderBy::DescNullsLast(field()).to_string(), "name: desc_nulls_last");
}

#[test]
fn construct_query_in_one_call() {
    let returning = fields();
    assert_eq!(construct_query("op", &[], &returning, false, false), "op { a b }");
    let params = [
        (Some("limit".to_string()), "10".to_string()),
        (None, "id:\"3\"".to_string()),
    ];
    assert_eq!(
        construct_query("op", &params, &returning, true, true),
        "op(limit: 10, id:\"3\") { returning { a b } affected_rows }"
    );
}

#[test]
fn names_of_the_eight_operations() {
    let entity = article();
    let row = apple();
    let rows = vec![apple()];
    let pk = || entity.pk(vec![text("apple"), text("fruits")]).unwrap();
    assert_eq!(Query::new(&entity).name(), "articles");
    assert_eq!(QueryByPk::new(&entity, pk()).name(), "articles_by_pk");
    assert_eq!(Insert::new(&entity, &rows).name(), "insert_articles");
    assert_eq!(InsertOne::new(&entity, apple()).name(), "insert_articles_one");
    assert_eq!(Update::new(&entity, &row).name(), "update_articles");
    assert_eq!(UpdateByPk::new(&entity, pk(), &row).name(), "update_articles_by_pk");
    assert_eq!(Delete::new(&entity).name(), "delete_articles");
    assert_eq!(DeleteByPk::new(&entity, pk()).name(), "delete_articles_by_pk");
}

#[test]
fn text_starts_with_the_name() {
    let entity = article();
    let row = apple();
    let rows = vec![apple()];
    let pk = || entity.pk(vec![text("apple"), text("fruits")]).unwrap();
    assert!(Query::new(&entity).to_string().starts_with(&Query::new(&entity).name()));
    assert!(QueryByPk::new(&entity, pk()).to_string().starts_with("articles_by_pk("));
    assert!(Insert::new(&entity, &rows).to_string().starts_with("insert_articles("));
    assert!(InsertOne::new(&entity, apple()).to_string().starts_with("insert_articles_one("));
    assert!(Update::new(&entity, &row).to_string().starts_with("update_articles("));
    assert!(UpdateByPk::new(&entity, pk(), &row).to_string().starts_with("update_articles_by_pk("));
    assert!(Delete::new(&entity).to_string().starts_with("delete_articles "));
    assert!(DeleteByPk::new(&entity, pk()).to_string().starts_with("delete_articles_by_pk("));
}

#[test]
fn query_with_everything() {
    let entity = article();
    let query = Query::new(&entity)
        .order_by(vec![OrderBy::Desc(Field::new("price")), OrderBy::Asc(Field::new("name"))])
        .distinct_on(Field::new("category"))
        .limit(3)
        .offset(0)
        .conditions(by_name())
        .returning(Fields { inner: vec![Field::new("name")] });
    assert_eq!(
        query.to_string(),
        "articles(order_by: price: desc, name: asc, distinct_on: category, limit: 3, offset: 0, where: { name: { _eq : \"apple\" } }) { name }"
    );
}

#[test]
fn query_with_empty_conditions_has_no_where() {
    let entity = article();
    let query = Query::new(&entity).conditions(Conditions::Empty);
    assert_eq!(query.to_string(), "articles { name category price }");
}

#[test]
fn insert_many() {
    let entity = article();
    let rows = vec![apple(), apple()];
    let insert = Insert::new(&entity, &rows).affected_rows(true);
    assert_eq!(
        insert.to_string(),
        "insert_articles(objects: [{name:\"apple\",category:\"fruits\",price:\"7\"}, {name:\"apple\",category:\"fruits\",price:\"7\"}]) { returning { name category price } affected_rows }"
    );
    let none: Vec<Literal> = vec![];
    assert_eq!(
        Insert::new(&entity, &none).to_string(),
        "insert_articles { returning { name category price } }"
    );
}

#[test]
fn insert_with_conflict_clause() {
    let entity = article();
    let clause = || {
        OnConflict::new(Literal::Object(vec![
            member("constraint", text("articles_pkey")),
            member("update_columns", Literal::List(vec![text("price"), text("category")])),
        ]))
    };
    assert_eq!(
        clause().to_string(),
        "{constraint:\"articles_pkey\",update_columns:[\"price\",\"category\"]}"
    );
    let one = InsertOne::new(&entity, apple()).on_conflict(clause());
    assert_eq!(
        one.to_string(),
        "insert_articles_one(object: {name:\"apple\",category:\"fruits\",price:\"7\"}, on_conflict: {constraint:\"articles_pkey\",update_columns:[\"price\",\"category\"]}) { name category price }"
    );
    let rows = vec![apple()];
    let many = Insert::new(&entity, &rows).on_conflict(clause());
    assert_eq!(
        many.to_string(),
        "insert_articles(objects: [{name:\"apple\",category:\"fruits\",price:\"7\"}], on_conflict: {constraint:\"articles_pkey\",update_columns:[\"price\",\"category\"]}) { returning { name category price } }"
    );
}

#[test]
fn update_where() {
    let entity = article();
    let row = apple();
    let update = Update::new(&entity, &row).conditions(by_name()).affected_rows(true);
    assert_eq!(
        update.to_string(),
        "update_articles(_set: {name:\"apple\",category:\"fruits\",price:\"7\"}, where: { name: { _eq : \"apple\" } }) { returning { name category price } affected_rows }"
    );
    let everywhere = Update::new(&entity, &row);
    assert_eq!(
        everywhere.to_string(),
        "update_articles(_set: {name:\"apple\",category:\"fruits\",price:\"7\"}) { returning { name category price } }"
    );
}

#[test]
fn delete_without_conditions_has_no_where() {
    let entity = article();
    assert_eq!(
        Delete::new(&entity).to_string(),
        "delete_articles { returning { name category price } }"
    );
    assert_eq!(
        Delete::new(&entity).affected_rows(true).returning(Fields { inner: vec![Field::new("name")] }).to_string(),
        "delete_articles { returning { name } affected_rows }"
    );
}

#[test]
fn delete_of_a_negated_empty_tree_keeps_its_where() {
    let entity = article();
    let delete = Delete::new(&entity).conditions(Conditions::Empty.not());
    assert_eq!(
        delete.to_string(),
        "delete_articles(where: { _not{  } }) { returning { name category price } }"
    );
    assert_ne!(delete.to_string(), Delete::new(&entity).to_string());
}

#[test]
fn delete_by_primary_key() {
    let entity = article();
    let pk = entity.pk(vec![text("apple"), text("fruits")]).unwrap();
    assert_eq!(
        DeleteByPk::new(&entity, pk).to_string(),
        "delete_articles_by_pk(pk_columns: {name:\"apple\",category:\"fruits\"}) { name category price }"
    );
}

#[test]
fn query_by_composite_key_is_flat() {
    let entity = article();
    let pk = entity.pk(vec![text("apple"), text("fruits")]).unwrap();
    assert_eq!(
        QueryByPk::new(&entity, pk).returning(Fields { inner: vec![Field::new("price")] }).to_string(),
        "articles_by_pk(name:\"apple\",category:\"fruits\", ) { price }"
    );
}
