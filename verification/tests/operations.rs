use hasura::conditions::{Condition, Conditions, Operator};
use hasura::entity::{Column, Entity, Scalar};
use hasura::fields::Field;
use hasura::queries::delete::Delete;
use hasura::queries::insert::Insert;
use hasura::queries::insert_one::InsertOne;
use hasura::queries::query::Query;
use hasura::queries::query_by_pk::QueryByPk;
use hasura::queries::update_by_pk::UpdateByPk;
use hasura::serializer::{Literal, Member};

fn text(value: &str) -> Literal {
    Literal::Text(value.to_string())
}

fn member(name: &str, value: Literal) -> Member {
    Member { name: name.to_string(), value, skip_if_empty: true }
}

fn optional(value: Option<Literal>) -> Literal {
    match value {
        Some(value) => value,
        None => Literal::Null,
    }
}

/// A related value, as it is nested in a row to insert.
fn relation(value: Literal) -> Literal {
    Literal::Object(vec![member("data", value)])
}

fn article() -> Entity {
    Entity::new(
        "articles",
        vec![Column::scalar("name"), Column::scalar("category"), Column::scalar("price")],
        vec![("name".to_string(), Scalar::Text), ("category".to_string(), Scalar::Text)],
    )
}

fn manager() -> Entity {
    Entity::new(
        "managers",
        vec![Column::scalar("name"), Column::scalar("weight")],
        vec![("name".to_string(), Scalar::Text)],
    )
}

fn store() -> Entity {
    Entity::new(
        "stores",
        vec![
            Column::scalar("id"),
            Column::scalar("manager_id"),
            Column::relation("articles", article()),
            Column::relation("manager", manager()),
        ],
        vec![("id".to_string(), Scalar::Unsigned)],
    )
}

fn article_row(name: &str, category: &str, price: u64) -> Literal {
    Literal::Object(vec![
        member("name", text(name)),
        member("category", text(category)),
        member("price", Literal::Unsigned(price)),
    ])
}

fn manager_row(name: &str, weight: f64) -> Literal {
    Literal::Object(vec![
        member("name", text(name)),
        member("weight", Literal::decimal(format!("{}", weight)).unwrap()),
    ])
}

fn store_row(
    id: Option<u64>,
    manager_id: Option<&str>,
    articles: Vec<Literal>,
    manager: Option<Literal>,
) -> Literal {
    Literal::Object(vec![
        member("id", optional(id.map(Literal::Unsigned))),
        member("manager_id", optional(manager_id.map(text))),
        member("articles", relation(Literal::List(articles))),
        member("manager", relation(optional(manager))),
    ])
}

#[test]
fn simple_query() {
    let manager = manager();
    let managers = Query::new(&manager);

    assert_eq!(managers.to_string(), "managers { name weight }");
}

#[test]
fn query_by_pk() {
    let entity = manager();
    let pk = entity.pk(vec![text("Boris")]).unwrap();
    let manager = QueryByPk::new(&entity, pk);

    assert_eq!(manager.to_string(), "managers_by_pk(name:\"Boris\", ) { name weight }");
}

#[test]
fn complex_query() {
    let manager = manager();
    let managers = Query::new(&manager)
        .distinct_on(manager.field("name").unwrap())
        .offset(10u64)
        .limit(10u64);

    assert_eq!(
        managers.to_string(),
        "managers(distinct_on: name, limit: 10, offset: 10) { name weight }"
    );
}

#[test]
fn simple_insert() {
    let entity = manager();
    let manager = manager_row("John", 10.0);

    let insert = InsertOne::new(&entity, manager);

    assert_eq!(
        insert.to_string(),
        "insert_managers_one(object: {name:\"John\",weight:\"10\"}) { name weight }"
    );
}

#[test]
fn complex_insert() {
    let article0 = article_row("0", "0", 0);
    let article1 = article_row("1", "1", 1);

    let store0 = store_row(None, None, vec![article1], None);
    let store1 = store_row(None, None, vec![article0], None);

    let entity = store();
    let objects = vec![store0, store1];
    let insert = Insert::new(&entity, &objects);

    assert_eq!(insert.to_string(), "insert_stores(objects: [{articles:{data:[{name:\"1\",category:\"1\",price:\"1\"}]}}, {articles:{data:[{name:\"0\",category:\"0\",price:\"0\"}]}}]) { returning { id manager_id articles { name category price } manager { name weight } } }")
}

#[test]
fn simple_delete() {
    let article = article();
    let conditions = Conditions::single(
        article.field("name").unwrap(),
        Condition::new(Operator::Eq, text("apple")).unwrap(),
    );
    let articles = Delete::new(&article).conditions(conditions);

    assert_eq!(
        articles.to_string(),
        "delete_articles(where: { name: { _eq : \"apple\" } }) { returning { name category price } }"
    )
}

#[test]
fn conditions() {
    let manager = manager();
    let conditions = Conditions::single(
        manager.field("name").unwrap(),
        Condition::new(Operator::Ilike, text("%J%")).unwrap(),
    );
    let managers = Delete::new(&manager).conditions(conditions);

    assert_eq!(
        managers.to_string(),
        "delete_managers(where: { name: { _ilike : \"%J%\" } }) { returning { name weight } }"
    )
}

#[test]
fn update_by_pk() {
    let entity = article();
    let article = article_row("apple", "fruits", 7);

    let pk = entity.pk(vec![text("apple"), text("fruits")]).unwrap();
    let updated = UpdateByPk::new(&entity, pk, &article);

    assert_eq!(
        updated.to_string(),
        "update_articles_by_pk(pk_columns: {name:\"apple\",category:\"fruits\"}, _set: {name:\"apple\",category:\"fruits\",price:\"7\"}) { name category price }"
    );
}

#[test]
fn recursive_except() {
    let store = store();
    let returning = store.except(&[Field::recursive("articles", article().all())]);
    let query = Query::new(&store).returning(returning);

    assert_eq!(query.to_string(), "stores { id manager_id manager { name weight } }");
}
