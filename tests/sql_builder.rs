use vault_core::{
    Aggregate, AggregateOperation, Filter, FilterOperator, Glue, HttpQuery, OrderDirection,
    QueryValue, SqLiteQueryBuilder, SqliteQueryBuilderError,
};

fn text(s: &str) -> QueryValue {
    QueryValue::Text(s.to_string())
}

#[test]
fn test_simple_select_query() {
    let query = HttpQuery::builder()
        .select("name", None)
        .select("age", None)
        .build();

    let mut builder = SqLiteQueryBuilder::new("users".to_string(), query);
    let (sql, params) = builder.build_sqlite_query().unwrap();

    assert_eq!(sql, "SELECT name, age FROM users");
    assert!(params.is_empty());
}

#[test]
fn test_select_query_with_alias() {
    let query = HttpQuery::builder()
        .select("name", None)
        .select("age", Some("user_age"))
        .build();

    let mut builder = SqLiteQueryBuilder::new("users".to_string(), query);
    let (sql, params) = builder.build_sqlite_query().unwrap();

    assert_eq!(sql, "SELECT name, age AS user_age FROM users");
    assert!(params.is_empty());
}

#[test]
fn test_select_query_with_filter() {
    let query = HttpQuery::builder()
        .select("name", None)
        .filter(|f| {
            f.column("age")
                .operator(FilterOperator::Gt)
                .value(QueryValue::Integer(18))
                .build()
        })
        .build();

    let mut builder = SqLiteQueryBuilder::new("users".to_string(), query);
    let (sql, params) = builder.build_sqlite_query().unwrap();

    assert_eq!(sql, "SELECT name FROM users WHERE age > ?");
    assert_eq!(params.len(), 1);
    assert_eq!(params[0].0, QueryValue::Integer(18));
}

#[test]
fn test_select_query_with_multiple_filters() {
    let query = HttpQuery::builder()
        .select("name", None)
        .filter(|f| {
            f.column("age")
                .operator(FilterOperator::Gt)
                .value(QueryValue::Integer(18))
                .build()
        })
        .filter(|f| {
            f.column("city")
                .operator(FilterOperator::Eq)
                .value(text("New York"))
                .glue(Glue::And)
                .build()
        })
        .build();

    let mut builder = SqLiteQueryBuilder::new("users".to_string(), query);
    let (sql, params) = builder.build_sqlite_query().unwrap();

    assert_eq!(sql, "SELECT name FROM users WHERE age > ?, AND city = ?");
    assert_eq!(params.len(), 2);
    assert_eq!(params[0].0, QueryValue::Integer(18));
    assert_eq!(params[1].0, text("New York"));
}

#[test]
fn test_select_query_with_order() {
    let query = HttpQuery::builder()
        .select("name", None)
        .order("age", OrderDirection::Desc)
        .build();

    let mut builder = SqLiteQueryBuilder::new("users".to_string(), query);
    let (sql, params) = builder.build_sqlite_query().unwrap();

    assert_eq!(sql, "SELECT name FROM users ORDER BY age DESC");
    assert!(params.is_empty());
}

#[test]
fn test_select_query_with_limit_and_offset() {
    let query = HttpQuery::builder()
        .select("name", None)
        .limit(10)
        .offset(20)
        .build();

    let mut builder = SqLiteQueryBuilder::new("users".to_string(), query);
    let (sql, params) = builder.build_sqlite_query().unwrap();

    assert_eq!(sql, "SELECT name FROM users LIMIT ? OFFSET ?");
    assert_eq!(params.len(), 2);
    assert_eq!(params[0].0, QueryValue::Integer(10));
    assert_eq!(params[1].0, QueryValue::Integer(20));
}

#[test]
fn test_select_query_with_aggregates() {
    let query = HttpQuery::builder()
        .aggregate(Aggregate {
            operation: AggregateOperation::Count,
            column: "id".to_string(),
            alias: Some("total_users".to_string()),
        })
        .aggregate(Aggregate {
            operation: AggregateOperation::Avg,
            column: "age".to_string(),
            alias: Some("average_age".to_string()),
        })
        .build();

    let mut builder = SqLiteQueryBuilder::new("users".to_string(), query);
    let (sql, params) = builder.build_sqlite_query().unwrap();

    assert_eq!(
        sql,
        "SELECT COUNT(id) AS total_users, AVG(age) AS average_age FROM users"
    );
    assert!(params.is_empty());
}

#[test]
fn test_select_query_with_group_by() {
    let query = HttpQuery::builder()
        .select("department", None)
        .aggregate(Aggregate {
            operation: AggregateOperation::Count,
            column: "id".to_string(),
            alias: Some("employee_count".to_string()),
        })
        .group("department", None)
        .build();

    let mut builder = SqLiteQueryBuilder::new("employees".to_string(), query);
    let (sql, params) = builder.build_sqlite_query().unwrap();

    assert_eq!(
        sql,
        "SELECT department, COUNT(id) AS employee_count FROM employees GROUP BY department"
    );
    assert!(params.is_empty());
}

#[test]
fn sqlite_query_builder_test_complex_query() {
    let query = HttpQuery::builder()
        .select("name", None)
        .select("department", Some("dept"))
        .filter(|f| {
            f.column("age")
                .operator(FilterOperator::Ge)
                .value(QueryValue::Integer(18))
                .build()
        })
        .filter(|f| {
            f.column("salary")
                .operator(FilterOperator::Gt)
                .value(QueryValue::Integer(50000))
                .glue(Glue::And)
                .build()
        })
        .order("name", OrderDirection::Asc)
        .aggregate(Aggregate {
            operation: AggregateOperation::Avg,
            column: "salary".to_string(),
            alias: Some("avg_salary".to_string()),
        })
        .group("department", None)
        .limit(100)
        .offset(0)
        .build();

    let mut builder = SqLiteQueryBuilder::new("employees".to_string(), query);
    let (sql, params) = builder.build_sqlite_query().unwrap();

    assert_eq!(sql, "SELECT name, department AS dept, AVG(salary) AS avg_salary FROM employees WHERE age >= ?, AND salary > ? GROUP BY department ORDER BY name ASC LIMIT ? OFFSET ?");
    assert_eq!(params.len(), 4);
    assert_eq!(params[0].0, QueryValue::Integer(18));
    assert_eq!(params[1].0, QueryValue::Integer(50000));
    assert_eq!(params[2].0, QueryValue::Integer(100));
    assert_eq!(params[3].0, QueryValue::Integer(0));
}

#[test]
fn sqlite_query_builder_test_empty_query() {
    let query = HttpQuery::builder().build();
    let mut builder = SqLiteQueryBuilder::new("users".to_string(), query);
    let (sql, params) = builder.build_sqlite_query().unwrap();

    assert_eq!(sql, "SELECT * FROM users");
    assert!(params.is_empty());
}

#[test]
fn test_query_with_in_operator() {
    let query = HttpQuery::builder()
        .select("name", None)
        .filter(|f| {
            f.column("status")
                .operator(FilterOperator::In)
                .values(vec![text("active"), text("pending")])
                .build()
        })
        .build();

    let mut builder = SqLiteQueryBuilder::new("users".to_string(), query);
    let (sql, params) = builder.build_sqlite_query().unwrap();

    assert_eq!(sql, "SELECT name FROM users WHERE status IN (?, ?)");
    assert_eq!(params.len(), 2);
    assert_eq!(params[0].0, text("active"));
    assert_eq!(params[1].0, text("pending"));
}

#[test]
fn test_query_with_like_operator() {
    let query = HttpQuery::builder()
        .select("name", None)
        .filter(|f| {
            f.column("email")
                .operator(FilterOperator::Like)
                .value(text("@example.com"))
                .build()
        })
        .build();

    let mut builder = SqLiteQueryBuilder::new("users".to_string(), query);
    let (sql, params) = builder.build_sqlite_query().unwrap();

    assert_eq!(sql, "SELECT name FROM users WHERE email LIKE ?");
    assert_eq!(params.len(), 1);
    assert_eq!(params[0].0, text("%@example.com%"));
}

#[test]
fn test_query_with_is_null_operator() {
    let query = HttpQuery::builder()
        .select("name", None)
        .filter(|f| f.column("last_login").operator(FilterOperator::IsNull).build())
        .build();

    let mut builder = SqLiteQueryBuilder::new("users".to_string(), query);
    let (sql, params) = builder.build_sqlite_query().unwrap();

    assert_eq!(sql, "SELECT name FROM users WHERE last_login IS NULL");
    assert!(params.is_empty());
}

#[test]
fn test_query_with_multiple_aggregates() {
    let query = HttpQuery::builder()
        .aggregate(Aggregate {
            operation: AggregateOperation::Count,
            column: "*".to_string(),
            alias: Some("total_count".to_string()),
        })
        .aggregate(Aggregate {
            operation: AggregateOperation::Max,
            column: "salary".to_string(),
            alias: Some("max_salary".to_string()),
        })
        .aggregate(Aggregate {
            operation: AggregateOperation::Min,
            column: "age".to_string(),
            alias: Some("min_age".to_string()),
        })
        .build();

    let mut builder = SqLiteQueryBuilder::new("employees".to_string(), query);
    let (sql, params) = builder.build_sqlite_query().unwrap();

    assert_eq!(
        sql,
        "SELECT COUNT(*) AS total_count, MAX(salary) AS max_salary, MIN(age) AS min_age FROM employees"
    );
    assert!(params.is_empty());
}

#[test]
fn test_query_with_multiple_orders() {
    let query = HttpQuery::builder()
        .select("name", None)
        .select("age", None)
        .order("age", OrderDirection::Desc)
        .order("name", OrderDirection::Asc)
        .build();

    let mut builder = SqLiteQueryBuilder::new("users".to_string(), query);
    let (sql, params) = builder.build_sqlite_query().unwrap();

    assert_eq!(
        sql,
        "SELECT name, age FROM users ORDER BY age DESC, name ASC"
    );
    assert!(params.is_empty());
}

#[test]
fn test_query_with_complex_filter_combination() {
    let query = HttpQuery::builder()
        .select("name", None)
        .filter(|f| {
            f.column("age")
                .operator(FilterOperator::Gt)
                .value(QueryValue::Integer(18))
                .build()
        })
        .filter(|f| {
            f.column("status")
                .operator(FilterOperator::Eq)
                .value(text("active"))
                .glue(Glue::And)
                .build()
        })
        .filter(|f| {
            f.column("department")
                .operator(FilterOperator::In)
                .values(vec![text("HR"), text("IT")])
                .glue(Glue::Or)
                .build()
        })
        .build();

    let mut builder = SqLiteQueryBuilder::new("employees".to_string(), query);
    let (sql, params) = builder.build_sqlite_query().unwrap();

    assert_eq!(
        sql,
        "SELECT name FROM employees WHERE age > ?, AND status = ?, OR department IN (?, ?)"
    );
    assert_eq!(params.len(), 4);
    assert_eq!(params[0].0, QueryValue::Integer(18));
    assert_eq!(params[1].0, text("active"));
    assert_eq!(params[2].0, text("HR"));
    assert_eq!(params[3].0, text("IT"));
}

#[test]
fn building_twice_gives_identical_results() {
    let make = || {
        HttpQuery::builder()
            .select("name", None)
            .filter(|f| {
                f.column("age")
                    .operator(FilterOperator::Gt)
                    .value(QueryValue::Integer(18))
                    .build()
            })
            .limit(5)
            .build()
    };
    let mut first = SqLiteQueryBuilder::new("users".to_string(), make());
    let mut second = SqLiteQueryBuilder::new("users".to_string(), make());
    let a = first.build_sqlite_query().unwrap();
    let b = second.build_sqlite_query().unwrap();
    assert_eq!(a.0, b.0);
    assert_eq!(a.1, b.1);
}

#[test]
fn missing_glue_defaults_to_and() {
    let query = HttpQuery::builder()
        .filter(|f| f.column("a").operator(FilterOperator::IsNull).build())
        .filter(|f| f.column("b").operator(FilterOperator::IsNotNull).build())
        .build();
    let mut builder = SqLiteQueryBuilder::new("t".to_string(), query);
    let (sql, params) = builder.build_sqlite_query().unwrap();
    assert_eq!(sql, "SELECT * FROM t WHERE a IS NULL, AND b IS NOT NULL");
    assert!(params.is_empty());
}

#[test]
fn not_glue_is_emitted_like_the_others() {
    let query = HttpQuery::builder()
        .filter(|f| f.column("a").operator(FilterOperator::Ne).value(QueryValue::Bool(true)).build())
        .filter(|f| {
            f.column("b")
                .operator(FilterOperator::Lt)
                .value(QueryValue::Null)
                .glue(Glue::Not)
                .build()
        })
        .build();
    let mut builder = SqLiteQueryBuilder::new("t".to_string(), query);
    let (sql, params) = builder.build_sqlite_query().unwrap();
    assert_eq!(sql, "SELECT * FROM t WHERE a <> ?, NOT b < ?");
    assert_eq!(params[0].0, QueryValue::Bool(true));
    assert_eq!(params[1].0, QueryValue::Null);
}

#[test]
fn pattern_operators_wrap_their_value() {
    let query = HttpQuery::builder()
        .filter(|f| f.column("a").operator(FilterOperator::StartsWith).value(text("ab")).build())
        .filter(|f| f.column("b").operator(FilterOperator::EndsWith).value(text("cd")).build())
        .filter(|f| f.column("c").operator(FilterOperator::NotLike).value(text("ef")).build())
        .build();
    let mut builder = SqLiteQueryBuilder::new("t".to_string(), query);
    let (sql, params) = builder.build_sqlite_query().unwrap();
    assert_eq!(sql, "SELECT * FROM t WHERE a LIKE ?, AND b LIKE ?, AND c NOT LIKE ?");
    assert_eq!(params[0].0, text("ab%"));
    assert_eq!(params[1].0, text("%cd"));
    assert_eq!(params[2].0, text("%ef%"));
}

#[test]
fn not_in_list_with_three_values() {
    let query = HttpQuery::builder()
        .filter(|f| {
            f.column("id")
                .operator(FilterOperator::NotIn)
                .values(vec![QueryValue::Integer(1), QueryValue::Integer(2), QueryValue::Integer(3)])
                .build()
        })
        .build();
    let mut builder = SqLiteQueryBuilder::new("t".to_string(), query);
    let (sql, params) = builder.build_sqlite_query().unwrap();
    assert_eq!(sql, "SELECT * FROM t WHERE id NOT IN (?, ?, ?)");
    assert_eq!(params.len(), 3);
    assert_eq!(params[2].0, QueryValue::Integer(3));
}

#[test]
fn in_list_without_values_is_an_invalid_filter() {
    let query = HttpQuery::builder()
        .filter(|f| f.column("status").operator(FilterOperator::In).build())
        .build();
    let mut builder = SqLiteQueryBuilder::new("users".to_string(), query);
    assert_eq!(
        builder.build_sqlite_query().unwrap_err(),
        SqliteQueryBuilderError::InvalidFilter("status".to_string())
    );
}

#[test]
fn in_list_with_empty_values_is_an_invalid_filter() {
    let query = HttpQuery::builder()
        .filter(|_f| Filter::in_list("kind", vec![], None))
        .build();
    let mut builder = SqLiteQueryBuilder::new("users".to_string(), query);
    assert_eq!(
        builder.build_sqlite_query().unwrap_err(),
        SqliteQueryBuilderError::InvalidFilter("kind".to_string())
    );
}

#[test]
fn comparison_without_value_is_an_invalid_filter() {
    let query = HttpQuery::builder()
        .filter(|f| f.column("age").operator(FilterOperator::Ge).build())
        .build();
    let mut builder = SqLiteQueryBuilder::new("users".to_string(), query);
    assert!(builder.build_sqlite_query().is_err());
}

#[test]
fn pattern_with_non_text_value_is_an_invalid_filter() {
    let query = HttpQuery::builder()
        .filter(|f| f.column("name").operator(FilterOperator::Like).value(QueryValue::Integer(3)).build())
        .build();
    let mut builder = SqLiteQueryBuilder::new("users".to_string(), query);
    assert_eq!(
        builder.build_sqlite_query().unwrap_err(),
        SqliteQueryBuilderError::InvalidFilter("name".to_string())
    );
}

#[test]
fn flags_follow_the_query() {
    let query = HttpQuery::builder()
        .aggregate(Aggregate {
            operation: AggregateOperation::Sum,
            column: "x".to_string(),
            alias: None,
        })
        .build();
    let builder = SqLiteQueryBuilder::new("t".to_string(), query);
    assert!(builder.is_analytic);
    assert!(!builder.is_filtered);
    assert!(builder.params.is_empty());
}

#[test]
fn invalid_filter_message_names_the_column() {
    let e = SqliteQueryBuilderError::InvalidFilter("age".to_string());
    assert_eq!(e.message(), "Invalid filter: age");
}
