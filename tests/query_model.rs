use vault_core::{
    Aggregate, AggregateOperation, Filter, FilterOperator, Glue, Group, HttpQuery, OrderBy,
    OrderDirection, QueryValue, Select,
};

#[test]
fn http_query_test_empty_query() {
    let query = HttpQuery::builder().build();
    assert_eq!(query, HttpQuery::default());
}

#[test]
fn test_select() {
    let query = HttpQuery::builder()
        .select("column1", None)
        .select("column2", Some("alias2"))
        .build();

    assert_eq!(
        query.select,
        Some(vec![
            Select {
                column: "column1".to_string(),
                alias: None
            },
            Select {
                column: "column2".to_string(),
                alias: Some("alias2".to_string())
            },
        ])
    );
}

#[test]
fn test_filter() {
    let query = HttpQuery::builder()
        .filter(|f| {
            f.column("age")
                .operator(FilterOperator::Gt)
                .value(QueryValue::Integer(18))
                .build()
        })
        .filter(|f| {
            f.column("name")
                .operator(FilterOperator::Like)
                .value(QueryValue::Text("%John%".to_string()))
                .build()
        })
        .build();

    assert_eq!(
        query.filters,
        Some(vec![
            Filter {
                column: "age".to_string(),
                operator: FilterOperator::Gt,
                value: Some(QueryValue::Integer(18)),
                values: None,
                glue: None,
            },
            Filter {
                column: "name".to_string(),
                operator: FilterOperator::Like,
                value: Some(QueryValue::Text("%John%".to_string())),
                values: None,
                glue: None,
            },
        ])
    );
}

#[test]
fn test_order() {
    let query = HttpQuery::builder()
        .order("name", OrderDirection::Asc)
        .order("age", OrderDirection::Desc)
        .build();

    assert_eq!(
        query.orders,
        Some(vec![
            OrderBy {
                column: "name".to_string(),
                direction: OrderDirection::Asc
            },
            OrderBy {
                column: "age".to_string(),
                direction: OrderDirection::Desc
            },
        ])
    );
}

#[test]
fn test_aggregate() {
    let query = HttpQuery::builder()
        .aggregate(Aggregate {
            operation: AggregateOperation::Count,
            column: "id".to_string(),
            alias: Some("total".to_string()),
        })
        .aggregate(Aggregate {
            operation: AggregateOperation::Avg,
            column: "salary".to_string(),
            alias: None,
        })
        .build();

    assert_eq!(
        query.aggregates,
        Some(vec![
            Aggregate {
                operation: AggregateOperation::Count,
                column: "id".to_string(),
                alias: Some("total".to_string()),
            },
            Aggregate {
                operation: AggregateOperation::Avg,
                column: "salary".to_string(),
                alias: None,
            },
        ])
    );
}

#[test]
fn test_group() {
    let query = HttpQuery::builder()
        .group("department", None)
        .group("location", Some("office"))
        .build();

    assert_eq!(
        query.groups,
        Some(vec![
            Group {
                column: "department".to_string(),
                alias: None
            },
            Group {
                column: "location".to_string(),
                alias: Some("office".to_string())
            },
        ])
    );
}

#[test]
fn test_limit_and_offset() {
    let query = HttpQuery::builder().limit(10).offset(20).build();

    assert_eq!(query.limit, Some(10));
    assert_eq!(query.offset, Some(20));
}

#[test]
fn http_query_test_complex_query() {
    let query = HttpQuery::builder()
        .select("name", None)
        .select("department", Some("dept"))
        .filter(|f| {
            f.column("age")
                .operator(FilterOperator::Ge)
                .value(QueryValue::Integer(18))
                .build()
        })
        .order("name", OrderDirection::Asc)
        .aggregate(Aggregate {
            operation: AggregateOperation::Avg,
            column: "salary".to_string(),
            alias: Some("avg_salary".to_string()),
        })
        .group("department", None)
        .limit(100)
        .offset(0)
        .build();

    assert!(query.select.is_some());
    assert!(query.filters.is_some());
    assert!(query.orders.is_some());
    assert!(query.aggregates.is_some());
    assert!(query.groups.is_some());
    assert_eq!(query.limit, Some(100));
    assert_eq!(query.offset, Some(0));
}

#[test]
fn test_filter_with_into() {
    let query = HttpQuery::builder()
        .filter(|f| {
            f.column("age")
                .operator(FilterOperator::Gt)
                .value(QueryValue::Integer(18))
                .into()
        })
        .filter(|f| {
            f.column("name")
                .operator(FilterOperator::Like)
                .value(QueryValue::Text("%John%".to_string()))
                .into()
        })
        .build();

    assert_eq!(
        query.filters,
        Some(vec![
            Filter {
                column: "age".to_string(),
                operator: FilterOperator::Gt,
                value: Some(QueryValue::Integer(18)),
                values: None,
                glue: None,
            },
            Filter {
                column: "name".to_string(),
                operator: FilterOperator::Like,
                value: Some(QueryValue::Text("%John%".to_string())),
                values: None,
                glue: None,
            },
        ])
    );
}

#[test]
fn builder_keeps_insertion_order_of_selects() {
    let query = HttpQuery::builder()
        .select("b", None)
        .select("a", None)
        .select("c", Some("z"))
        .build();
    let columns: Vec<String> = query
        .select
        .unwrap()
        .into_iter()
        .map(|s| s.column)
        .collect();
    assert_eq!(columns, vec!["b", "a", "c"]);
}

#[test]
fn builder_leaves_unused_lists_absent() {
    let query = HttpQuery::builder().select("name", None).build();
    assert!(query.filters.is_none());
    assert!(query.orders.is_none());
    assert!(query.aggregates.is_none());
    assert!(query.groups.is_none());
    assert!(query.limit.is_none());
    assert!(query.offset.is_none());
}

#[test]
fn filter_constructors_fill_the_right_operand() {
    let eq = Filter::equal("a", QueryValue::Integer(1), None);
    assert_eq!(eq.operator, FilterOperator::Eq);
    assert_eq!(eq.value, Some(QueryValue::Integer(1)));
    assert!(eq.values.is_none());

    let within = Filter::in_list(
        "s",
        vec![QueryValue::Text("x".to_string())],
        Some(Glue::Or),
    );
    assert_eq!(within.operator, FilterOperator::In);
    assert!(within.value.is_none());
    assert_eq!(within.values, Some(vec![QueryValue::Text("x".to_string())]));
    assert_eq!(within.glue, Some(Glue::Or));

    let null = Filter::is_not_null("d", None);
    assert_eq!(null.operator, FilterOperator::IsNotNull);
    assert!(null.value.is_none());
    assert!(null.values.is_none());

    assert_eq!(Filter::starts_with("c", QueryValue::Null, None).operator, FilterOperator::StartsWith);
    assert_eq!(Filter::not_in_list("c", vec![], None).operator, FilterOperator::NotIn);
}

#[test]
fn operator_and_glue_tokens() {
    assert_eq!(FilterOperator::Ng.to_string(), "!>");
    assert_eq!(FilterOperator::Nl.to_string(), "!<");
    assert_eq!(FilterOperator::NotLike.to_string(), "NOT LIKE");
    assert_eq!(FilterOperator::IsNotNull.to_string(), "IS NOT NULL");
    assert_eq!(Glue::Not.to_string(), "NOT");
    assert_eq!(AggregateOperation::Max.to_string(), "MAX");
}

#[test]
fn column_renderings() {
    let s = Select { column: "age".to_string(), alias: Some("user_age".to_string()) };
    assert_eq!(s.to_string(), "age AS user_age");
    let a = Aggregate {
        operation: AggregateOperation::Sum,
        column: "x".to_string(),
        alias: None,
    };
    assert_eq!(a.to_string(), "SUM(x)");
    let o = OrderBy { column: "n".to_string(), direction: OrderDirection::Desc };
    assert_eq!(o.to_string(), "n DESC");
}
