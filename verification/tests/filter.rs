use serde_json::{Number, Value};
use sqlite_mcp::error::AdapterError;
use sqlite_mcp::filter::{
    build_operator_conditions, build_where_clause, FilterOperators, FilterValue, QueryFilter,
};
use sqlite_mcp::value::SqlValue;

fn text(s: &str) -> Value {
    Value::String(s.to_string())
}

fn whole(i: i64) -> Value {
    Value::Number(Number::from(i))
}

fn object(members: Vec<(&str, Value)>) -> Value {
    let mut map = serde_json::Map::new();
    for (key, value) in members {
        map.insert(key.to_string(), value);
    }
    Value::Object(map)
}

fn compile(filter: Value) -> (String, Vec<SqlValue>) {
    build_where_clause(&QueryFilter::from_json(&filter).unwrap())
}

#[test]
fn empty_filter_always_holds() {
    let (sql, params) = compile(object(vec![]));
    assert_eq!(sql, "1=1");
    assert!(params.is_empty());
    let (sql, params) = build_where_clause(&QueryFilter { conditions: Vec::new() });
    assert_eq!(sql, "1=1");
    assert!(params.is_empty());
}

#[test]
fn columns_are_combined_with_and() {
    let (sql, params) = compile(object(vec![("a", whole(1)), ("b", object(vec![("$gt", whole(5))]))]));
    assert_eq!(sql, "(a = ?) AND ((b > ?))");
    assert_eq!(params, vec![SqlValue::Integer(1), SqlValue::Integer(5)]);
}

#[test]
fn operators_on_one_column_are_combined_with_or() {
    let (sql, params) =
        compile(object(vec![("a", object(vec![("$gt", whole(1)), ("$lt", whole(10))]))]));
    assert_eq!(sql, "((a > ?) OR (a < ?))");
    assert_eq!(params, vec![SqlValue::Integer(1), SqlValue::Integer(10)]);
}

#[test]
fn conditions_follow_the_order_of_the_filter() {
    let filter = QueryFilter {
        conditions: vec![
            ("z".to_string(), FilterValue::Direct(text("last"))),
            ("a".to_string(), FilterValue::Direct(Value::Bool(true))),
        ],
    };
    let (sql, params) = build_where_clause(&filter);
    assert_eq!(sql, "(z = ?) AND (a = ?)");
    assert_eq!(params, vec![SqlValue::Text("last".to_string()), SqlValue::Integer(1)]);
}

#[test]
fn every_operator_has_its_comparison() {
    let ops = FilterOperators {
        eq: Some(whole(1)),
        ne: Some(whole(2)),
        gt: Some(whole(3)),
        gte: Some(whole(4)),
        lt: Some(whole(5)),
        lte: Some(whole(6)),
        in_list: Some(vec![whole(7), text("eight"), Value::Null]),
        like: Some("n%".to_string()),
    };
    let (sql, params) = build_operator_conditions("c", &ops);
    assert_eq!(
        sql,
        "(c = ?) OR (c != ?) OR (c > ?) OR (c >= ?) OR (c < ?) OR (c <= ?) OR (c IN (?, ?, ?)) OR (c LIKE ?)"
    );
    assert_eq!(
        params,
        vec![
            SqlValue::Integer(1),
            SqlValue::Integer(2),
            SqlValue::Integer(3),
            SqlValue::Integer(4),
            SqlValue::Integer(5),
            SqlValue::Integer(6),
            SqlValue::Integer(7),
            SqlValue::Text("eight".to_string()),
            SqlValue::Null,
            SqlValue::Text("n%".to_string()),
        ]
    );
}

#[test]
fn a_single_operator_stands_alone() {
    let ops = FilterOperators { like: Some("a_c".to_string()), ..FilterOperators::default() };
    let (sql, params) = build_operator_conditions("name", &ops);
    assert_eq!(sql, "(name LIKE ?)");
    assert_eq!(params, vec![SqlValue::Text("a_c".to_string())]);
    let ops = FilterOperators { in_list: Some(vec![whole(1)]), ..FilterOperators::default() };
    assert_eq!(build_operator_conditions("id", &ops).0, "(id IN (?))");
    let ops = FilterOperators { in_list: Some(Vec::new()), ..FilterOperators::default() };
    let (sql, params) = build_operator_conditions("id", &ops);
    assert_eq!(sql, "(id IN ())");
    assert!(params.is_empty());
}

#[test]
fn no_operator_always_holds() {
    let (sql, params) = build_operator_conditions("c", &FilterOperators::default());
    assert_eq!(sql, "1=1");
    assert!(params.is_empty());
}

#[test]
fn default_operators_are_all_absent() {
    let ops = FilterOperators::default();
    assert_eq!(
        ops,
        FilterOperators {
            eq: None,
            ne: None,
            gt: None,
            gte: None,
            lt: None,
            lte: None,
            in_list: None,
            like: None,
        }
    );
}

#[test]
fn plain_values_are_direct() {
    assert_eq!(FilterValue::from_json(&whole(3)), FilterValue::Direct(whole(3)));
    assert_eq!(FilterValue::from_json(&text("$eq")), FilterValue::Direct(text("$eq")));
    assert_eq!(FilterValue::from_json(&Value::Null), FilterValue::Direct(Value::Null));
    let list = Value::Array(vec![whole(1)]);
    assert_eq!(FilterValue::from_json(&list), FilterValue::Direct(list.clone()));
}

#[test]
fn objects_without_an_operator_key_are_direct() {
    let plain = object(vec![("eq", whole(1)), ("x$", whole(2))]);
    assert_eq!(FilterValue::from_json(&plain), FilterValue::Direct(plain.clone()));
    let empty = object(vec![]);
    assert_eq!(FilterValue::from_json(&empty), FilterValue::Direct(empty.clone()));
}

#[test]
fn objects_with_operator_keys_are_operators() {
    let raw = object(vec![
        ("$gte", whole(1)),
        ("$in", Value::Array(vec![whole(1), whole(2)])),
        ("$like", text("a%")),
        ("other", text("ignored")),
    ]);
    assert_eq!(
        FilterValue::from_json(&raw),
        FilterValue::Operator(FilterOperators {
            gte: Some(whole(1)),
            in_list: Some(vec![whole(1), whole(2)]),
            like: Some("a%".to_string()),
            ..FilterOperators::default()
        })
    );
}

#[test]
fn unknown_operator_keys_give_no_operator() {
    let raw = object(vec![("$between", whole(1))]);
    assert_eq!(FilterValue::from_json(&raw), FilterValue::Operator(FilterOperators::default()));
}

#[test]
fn null_operands_are_absent() {
    let raw = object(vec![("$eq", Value::Null), ("$in", Value::Null), ("$like", Value::Null)]);
    assert_eq!(FilterValue::from_json(&raw), FilterValue::Operator(FilterOperators::default()));
}

#[test]
fn misshapen_operators_fall_back_to_direct() {
    let bad_list = object(vec![("$in", whole(5))]);
    assert_eq!(FilterValue::from_json(&bad_list), FilterValue::Direct(bad_list.clone()));
    let bad_pattern = object(vec![("$like", whole(5)), ("$eq", whole(1))]);
    assert_eq!(FilterValue::from_json(&bad_pattern), FilterValue::Direct(bad_pattern.clone()));
    // A direct object is compared as its JSON text.
    let (sql, params) = compile(object(vec![("c", bad_list)]));
    assert_eq!(sql, "(c = ?)");
    assert_eq!(params, vec![SqlValue::Text("{\"$in\":5}".to_string())]);
}

#[test]
fn a_filter_has_to_be_an_object() {
    assert_eq!(QueryFilter::from_json(&whole(1)), Err(AdapterError::FilterNotAnObject));
    assert_eq!(QueryFilter::from_json(&Value::Array(Vec::new())), Err(AdapterError::FilterNotAnObject));
    assert_eq!(QueryFilter::from_json(&Value::Null), Err(AdapterError::FilterNotAnObject));
}

#[test]
fn a_filter_keeps_one_condition_per_member() {
    let filter = QueryFilter::from_json(&object(vec![("a", whole(1)), ("b", object(vec![("$ne", text("x"))]))]))
        .unwrap();
    assert_eq!(
        filter.conditions,
        vec![
            ("a".to_string(), FilterValue::Direct(whole(1))),
            (
                "b".to_string(),
                FilterValue::Operator(FilterOperators { ne: Some(text("x")), ..FilterOperators::default() })
            ),
        ]
    );
}
