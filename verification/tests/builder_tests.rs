use solve::builder::{Expression, Predicate};
use solve::query::QueryBuilder;
use solve::statement::{Delete, Insert, Select, Update};
use solve::value::Value;

fn text(v: &str) -> Expression {
    Expression::Value(Value::Text(v.to_string()))
}

#[test]
fn bool_expression() {
    {
        let mut builder = QueryBuilder::new();
        Predicate::Bool(true).push_into(&mut builder);
        assert_eq!(builder.build().query(), "true");
    }
    {
        let mut builder = QueryBuilder::new();
        Predicate::Bool(false).push_into(&mut builder);
        assert_eq!(builder.build().query(), "false");
    }
    {
        let mut builder = QueryBuilder::new();
        Predicate::Bool(true)
            .and(Predicate::Bool(false))
            .push_into(&mut builder);
        assert_eq!(builder.build().query(), "true AND false");
    }
    {
        let mut builder = QueryBuilder::new();
        solve::builder::column("col").equal(text("42")).push_into(&mut builder);
        assert_eq!(builder.build().query(), "\"col\" = $1");
    }
    {
        let mut builder = QueryBuilder::new();
        solve::builder::column("col").not_equal(text("42")).push_into(&mut builder);
        assert_eq!(builder.build().query(), "\"col\" <> $1");
    }
    {
        let mut builder = QueryBuilder::new();
        solve::builder::column("col").less(text("42")).push_into(&mut builder);
        assert_eq!(builder.build().query(), "\"col\" < $1");
    }
    {
        let mut builder = QueryBuilder::new();
        solve::builder::column("col").greater(text("42")).push_into(&mut builder);
        assert_eq!(builder.build().query(), "\"col\" > $1");
    }
    {
        let mut builder = QueryBuilder::new();
        solve::builder::column("col").less_equal(text("42")).push_into(&mut builder);
        assert_eq!(builder.build().query(), "\"col\" <= $1");
    }
    {
        let mut builder = QueryBuilder::new();
        solve::builder::column("col").greater_equal(text("42")).push_into(&mut builder);
        assert_eq!(builder.build().query(), "\"col\" >= $1");
    }
}

#[test]
fn select_query() {
    {
        let query = Select::new()
            .with_table("tbl")
            .with_columns(vec!["col1".to_string(), "col2".to_string()])
            .into_query(QueryBuilder::new());
        assert_eq!(
            query.query(),
            "SELECT \"col1\", \"col2\" FROM \"tbl\" WHERE false"
        );
        assert!(query.values().is_empty());
    }
    {
        let query = Select::new()
            .with_table("tbl")
            .with_columns(vec!["col1".to_string(), "col2".to_string()])
            .with_where(Predicate::Bool(false))
            .into_query(QueryBuilder::new());
        assert_eq!(
            query.query(),
            "SELECT \"col1\", \"col2\" FROM \"tbl\" WHERE false"
        );
        assert!(query.values().is_empty());
    }
    {
        let query = Select::new()
            .with_table("tbl")
            .with_columns(vec!["col1".to_string(), "col2".to_string()])
            .with_where(Predicate::Bool(true))
            .into_query(QueryBuilder::new());
        assert_eq!(
            query.query(),
            "SELECT \"col1\", \"col2\" FROM \"tbl\" WHERE true"
        );
        assert!(query.values().is_empty());
    }
    {
        let query = Select::new()
            .with_table("tbl")
            .with_columns(vec!["col1".to_string(), "col2".to_string()])
            .with_where(
                solve::builder::column("col1")
                    .greater(Expression::Value(Value::BigInt(5)))
                    .and(solve::builder::column("col2").equal(text("abc"))),
            )
            .into_query(QueryBuilder::new());
        assert_eq!(
            query.query(),
            "SELECT \"col1\", \"col2\" FROM \"tbl\" WHERE \"col1\" > $1 AND \"col2\" = $2"
        );
        assert_eq!(
            query.values(),
            &vec![Value::BigInt(5), Value::Text("abc".to_string())]
        );
    }
}

#[test]
fn null_comparison_rewrites() {
    {
        let mut builder = QueryBuilder::new();
        solve::builder::column("col")
            .equal(Expression::Value(Value::Null))
            .push_into(&mut builder);
        let q = builder.build();
        assert_eq!(q.query(), "\"col\" IS NULL");
        assert!(q.values().is_empty());
    }
    {
        let mut builder = QueryBuilder::new();
        solve::builder::column("col")
            .not_equal(Expression::Value(Value::Null))
            .push_into(&mut builder);
        let q = builder.build();
        assert_eq!(q.query(), "\"col\" IS NOT NULL");
        assert!(q.values().is_empty());
    }
}

#[test]
fn mixed_connectives_parenthesised() {
    // An Or below an And is wrapped; an And below an And is not.
    let p = solve::builder::column("a")
        .equal(text("1"))
        .or(solve::builder::column("b").equal(text("2")))
        .and(solve::builder::column("c").equal(text("3")));
    let mut builder = QueryBuilder::new();
    p.push_into(&mut builder);
    assert_eq!(
        builder.build().query(),
        "(\"a\" = $1 OR \"b\" = $2) AND \"c\" = $3"
    );

    let q = solve::builder::column("a")
        .equal(text("1"))
        .and(solve::builder::column("b").equal(text("2")))
        .and(solve::builder::column("c").equal(text("3")));
    let mut builder = QueryBuilder::new();
    q.push_into(&mut builder);
    assert_eq!(builder.build().query(), "\"a\" = $1 AND \"b\" = $2 AND \"c\" = $3");
}

#[test]
fn insert_query() {
    let query = Insert::new()
        .with_table("tbl")
        .with_row(vec![
            ("a".to_string(), Value::BigInt(7)),
            ("b".to_string(), Value::Text("x".to_string())),
        ])
        .with_returning(vec!["id".to_string(), "a".to_string(), "b".to_string()])
        .into_query(QueryBuilder::new());
    assert_eq!(
        query.query(),
        "INSERT INTO \"tbl\" (\"a\", \"b\") VALUES ($1, $2) RETURNING \"id\", \"a\", \"b\""
    );
    assert_eq!(
        query.values(),
        &vec![Value::BigInt(7), Value::Text("x".to_string())]
    );
}

#[test]
fn update_query() {
    let query = Update::new()
        .with_table("tbl")
        .with_update(vec![("a".to_string(), Value::BigInt(7))])
        .with_where(solve::builder::column("id").equal(Expression::Value(Value::BigInt(3))))
        .into_query(QueryBuilder::new());
    assert_eq!(query.query(), "UPDATE \"tbl\" SET \"a\" = $1 WHERE \"id\" = $2");
    assert_eq!(query.values(), &vec![Value::BigInt(7), Value::BigInt(3)]);
}

#[test]
fn delete_query() {
    let query = Delete::new()
        .with_table("tbl")
        .with_where(solve::builder::column("id").equal(Expression::Value(Value::BigInt(3))))
        .into_query(QueryBuilder::new());
    assert_eq!(query.query(), "DELETE FROM \"tbl\" WHERE \"id\" = $1");
    assert_eq!(query.values(), &vec![Value::BigInt(3)]);
}

#[test]
fn placeholder_numbering_from_one() {
    let mut builder = QueryBuilder::new();
    builder.push_value(Value::BigInt(10));
    builder.push_str(" ");
    builder.push_value(Value::BigInt(11));
    let q = builder.build();
    assert_eq!(q.query(), "$1 $2");
    assert_eq!(q.values(), &vec![Value::BigInt(10), Value::BigInt(11)]);
}

#[test]
fn identifier_validity() {
    assert!(solve::text::is_valid_name("solve_task"));
    assert!(solve::text::is_valid_name(""));
    assert!(!solve::text::is_valid_name("a\"b"));
    assert!(!solve::text::is_valid_name("a\\b"));
}

#[test]
fn decimal_rendering() {
    assert_eq!(solve::text::u64_to_decimal(0), "0");
    assert_eq!(solve::text::u64_to_decimal(42), "42");
    assert_eq!(solve::text::u64_to_decimal(18446744073709551615), "18446744073709551615");
}
