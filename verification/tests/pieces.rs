use serde_json::{Number, Value};
use sqlite_mcp::batch::{chunk_end, insert_failure, update_failure, BatchResult, ChunkOutcome};
use sqlite_mcp::error::{AdapterError, Mutation};
use sqlite_mcp::filter::QueryFilter;
use sqlite_mcp::schema::{comment_or_name, resolve_primary_key, ColumnInfo, TableSchema};
use sqlite_mcp::catalog::{
    column_check_words, column_exists_statement, first_of, is_present, list_tables_statement,
    read_columns, read_count, read_counted, read_identity, read_name, read_names, read_presence,
    read_selected_names, require_column, require_table, table_check_words,
    table_exists_statement,
};
use sqlite_mcp::comments::{
    column_comment_count_statement, column_comment_query, column_comment_statement,
    comment_index_statement, comment_table_statements, default_column_comment_statement,
    default_table_comment_statement, needs_comment_tables, read_comment, read_stored_comment,
    set_column_comment_words, set_table_comment_words, table_comment_count_statement,
    table_comment_query, table_comment_statement,
};
use sqlite_mcp::rows::engine_failure;
use sqlite_mcp::statement::{
    batch_delete_statement, delete_statement, foreign_keys_statement, insert_statement,
    select_statement, table_info_statement, table_xinfo_statement, update_statement,
};
use sqlite_mcp::text::{join, join_repeated, signed_to_text, text_equals, unsigned_to_text};
use sqlite_mcp::value::SqlValue;

fn text(s: &str) -> Value {
    Value::String(s.to_string())
}

fn whole(i: i64) -> Value {
    Value::Number(Number::from(i))
}

fn object(members: Vec<(&str, Value)>) -> Value {
    let mut map = serde_json::Map::new();
    for (key, value) in members {
        map.insert(key.to_string(), value);
    }
    Value::Object(map)
}

fn column(name: &str, key: bool) -> ColumnInfo {
    ColumnInfo {
        name: name.to_string(),
        desc: None,
        data_type: "TEXT".to_string(),
        not_null: false,
        default_value: None,
        is_primary_key: key,
    }
}

fn cell(s: &str) -> Option<SqlValue> {
    Some(SqlValue::Text(s.to_string()))
}

// ---- text ----

#[test]
fn join_puts_the_separator_between_neighbours() {
    assert_eq!(join(&Vec::new(), ", "), "");
    assert_eq!(join(&vec!["a".to_string()], ", "), "a");
    assert_eq!(join(&vec!["a".to_string(), "b".to_string(), "c".to_string()], ", "), "a, b, c");
    assert_eq!(join(&vec!["".to_string(), "".to_string()], "-"), "-");
}

#[test]
fn join_repeated_repeats_the_item() {
    assert_eq!(join_repeated("?", 0, ", "), "");
    assert_eq!(join_repeated("?", 1, ", "), "?");
    assert_eq!(join_repeated("?", 3, ", "), "?, ?, ?");
}

#[test]
fn numerals_are_decimal() {
    assert_eq!(unsigned_to_text(0), "0");
    assert_eq!(unsigned_to_text(7), "7");
    assert_eq!(unsigned_to_text(10), "10");
    assert_eq!(unsigned_to_text(1234567890), "1234567890");
    assert_eq!(unsigned_to_text(u64::MAX), "18446744073709551615");
    assert_eq!(signed_to_text(0), "0");
    assert_eq!(signed_to_text(-1), "-1");
    assert_eq!(signed_to_text(905), "905");
    assert_eq!(signed_to_text(i64::MAX), "9223372036854775807");
    assert_eq!(signed_to_text(i64::MIN), "-9223372036854775808");
}

#[test]
fn text_equals_compares_characters() {
    assert!(text_equals("$eq", "$eq"));
    assert!(!text_equals("$eq", "$ne"));
    assert!(!text_equals("a", "ab"));
    assert!(text_equals("", ""));
}

// ---- statements ----

#[test]
fn insert_statement_lists_the_members() {
    let statement =
        insert_statement("people", &object(vec![("age", whole(30)), ("name", text("Ann"))])).unwrap();
    assert_eq!(statement.sql, "INSERT INTO people (age, name) VALUES (?, ?)");
    assert_eq!(statement.params, vec![SqlValue::Integer(30), SqlValue::Text("Ann".to_string())]);
}

#[test]
fn insert_statement_of_an_empty_object() {
    let statement = insert_statement("t", &object(vec![])).unwrap();
    assert_eq!(statement.sql, "INSERT INTO t () VALUES ()");
    assert!(statement.params.is_empty());
}

#[test]
fn statements_need_an_object() {
    assert_eq!(insert_statement("t", &whole(1)), Err(AdapterError::NotAnObject));
    assert_eq!(insert_statement("t", &Value::Array(Vec::new())), Err(AdapterError::NotAnObject));
    assert_eq!(update_statement("t", "id", 1, &text("x")), Err(AdapterError::NotAnObject));
}

#[test]
fn update_statement_assigns_the_members() {
    let statement =
        update_statement("people", "id", 7, &object(vec![("age", whole(31)), ("name", text("Ann"))]))
            .unwrap();
    assert_eq!(statement.sql, "UPDATE people SET age = ?, name = ? WHERE id = ?");
    assert_eq!(
        statement.params,
        vec![SqlValue::Integer(31), SqlValue::Text("Ann".to_string()), SqlValue::Integer(7)]
    );
}

#[test]
fn delete_statement_addresses_one_row() {
    let statement = delete_statement("people", "rowid", -3);
    assert_eq!(statement.sql, "DELETE FROM people WHERE rowid = ?");
    assert_eq!(statement.params, vec![SqlValue::Integer(-3)]);
}

#[test]
fn batch_delete_statement_has_one_placeholder_per_id() {
    let statement = batch_delete_statement("people", "id", &vec![4, 5, 6]);
    assert_eq!(statement.sql, "DELETE FROM people WHERE id IN (?, ?, ?)");
    assert_eq!(
        statement.params,
        vec![SqlValue::Integer(4), SqlValue::Integer(5), SqlValue::Integer(6)]
    );
}

#[test]
fn select_statement_adds_each_part_that_is_given() {
    assert_eq!(select_statement("t", None, None, None).sql, "SELECT * FROM t");
    assert_eq!(select_statement("t", None, Some(10), None).sql, "SELECT * FROM t LIMIT 10");
    assert_eq!(select_statement("t", None, None, Some(5)).sql, "SELECT * FROM t LIMIT -1 OFFSET 5");
    assert_eq!(select_statement("t", None, Some(0), Some(20)).sql, "SELECT * FROM t LIMIT 0 OFFSET 20");
    let filter = QueryFilter::from_json(&object(vec![("a", whole(1))])).unwrap();
    let statement = select_statement("t", Some(&filter), Some(3), Some(4));
    assert_eq!(statement.sql, "SELECT * FROM t WHERE (a = ?) LIMIT 3 OFFSET 4");
    assert_eq!(statement.params, vec![SqlValue::Integer(1)]);
    let empty = QueryFilter { conditions: Vec::new() };
    assert_eq!(select_statement("t", Some(&empty), None, None).sql, "SELECT * FROM t WHERE 1=1");
}

#[test]
fn table_info_statement_names_the_table() {
    let statement = table_info_statement("people");
    assert_eq!(statement.sql, "PRAGMA table_info(people)");
    assert!(statement.params.is_empty());
    let statement = table_xinfo_statement("people");
    assert_eq!(statement.sql, "PRAGMA table_xinfo(people)");
    assert!(statement.params.is_empty());
    let statement = foreign_keys_statement();
    assert_eq!(statement.sql, "PRAGMA foreign_keys = ON");
    assert!(statement.params.is_empty());
}

// ---- schema ----

#[test]
fn no_primary_key_resolves_to_rowid() {
    assert_eq!(resolve_primary_key(&vec![column("a", false), column("b", false)]), Ok("rowid".to_string()));
    assert_eq!(resolve_primary_key(&Vec::new()), Ok("rowid".to_string()));
}

#[test]
fn one_primary_key_resolves_to_that_column() {
    assert_eq!(
        resolve_primary_key(&vec![column("a", false), column("code", true), column("c", false)]),
        Ok("code".to_string())
    );
}

#[test]
fn several_primary_keys_are_refused() {
    assert_eq!(
        resolve_primary_key(&vec![column("a", true), column("b", false), column("c", true)]),
        Err(AdapterError::CompositePrimaryKey)
    );
    assert_eq!(
        resolve_primary_key(&vec![column("a", true), column("b", true), column("c", true)]),
        Err(AdapterError::CompositePrimaryKey)
    );
}

#[test]
fn a_column_is_read_from_its_cells() {
    let cells = vec![
        Some(SqlValue::Integer(0)),
        cell("id"),
        cell("INTEGER"),
        Some(SqlValue::Integer(1)),
        cell("7"),
        Some(SqlValue::Integer(1)),
    ];
    assert_eq!(
        ColumnInfo::from_cells(&cells),
        Ok(ColumnInfo {
            name: "id".to_string(),
            desc: None,
            data_type: "INTEGER".to_string(),
            not_null: true,
            default_value: Some("7".to_string()),
            is_primary_key: true,
        })
    );
}

#[test]
fn a_column_without_a_type_is_any() {
    let cells = vec![
        Some(SqlValue::Integer(2)),
        cell("v"),
        Some(SqlValue::Null),
        Some(SqlValue::Integer(0)),
        Some(SqlValue::Null),
        Some(SqlValue::Integer(0)),
    ];
    assert_eq!(
        ColumnInfo::from_cells(&cells),
        Ok(ColumnInfo {
            name: "v".to_string(),
            desc: None,
            data_type: "ANY".to_string(),
            not_null: false,
            default_value: None,
            is_primary_key: false,
        })
    );
}

#[test]
fn malformed_column_rows_are_refused() {
    let good = || {
        vec![
            Some(SqlValue::Integer(0)),
            cell("id"),
            cell("INTEGER"),
            Some(SqlValue::Integer(0)),
            Some(SqlValue::Null),
            Some(SqlValue::Integer(0)),
        ]
    };
    assert!(ColumnInfo::from_cells(&good()).is_ok());
    let mut short = good();
    short.pop();
    assert_eq!(ColumnInfo::from_cells(&short), Err(AdapterError::MalformedRow));
    let mut no_name = good();
    no_name[1] = Some(SqlValue::Null);
    assert_eq!(ColumnInfo::from_cells(&no_name), Err(AdapterError::MalformedRow));
    let mut bad_type = good();
    bad_type[2] = Some(SqlValue::Integer(1));
    assert_eq!(ColumnInfo::from_cells(&bad_type), Err(AdapterError::MalformedRow));
    let mut bad_flag = good();
    bad_flag[3] = cell("yes");
    assert_eq!(ColumnInfo::from_cells(&bad_flag), Err(AdapterError::MalformedRow));
    let mut wide_flag = good();
    wide_flag[3] = Some(SqlValue::Integer(1 << 40));
    assert_eq!(ColumnInfo::from_cells(&wide_flag), Err(AdapterError::MalformedRow));
    let mut bad_default = good();
    bad_default[4] = Some(SqlValue::Blob(vec![1]));
    assert_eq!(ColumnInfo::from_cells(&bad_default), Err(AdapterError::MalformedRow));
    let mut bad_key = good();
    bad_key[5] = None;
    assert_eq!(ColumnInfo::from_cells(&bad_key), Err(AdapterError::MalformedRow));
}

#[test]
fn described_sets_only_the_comment() {
    let plain = column("name", true);
    let described = plain.described("the name".to_string());
    assert_eq!(described, ColumnInfo { desc: Some("the name".to_string()), ..column("name", true) });
}

// ---- answers of the engine ----

#[test]
fn counts_are_read_from_one_integer_cell() {
    assert_eq!(read_count(Some(Some(SqlValue::Integer(3)))), Ok(3));
    assert_eq!(read_count(None), Err(AdapterError::MalformedRow));
    assert_eq!(read_count(Some(None)), Err(AdapterError::MalformedRow));
    assert_eq!(read_count(Some(cell("3"))), Err(AdapterError::MalformedRow));
}

#[test]
fn comments_are_read_from_one_text_cell() {
    assert_eq!(read_comment(None), Ok(None));
    assert_eq!(read_comment(Some(cell("hello"))), Ok(Some("hello".to_string())));
    assert_eq!(read_comment(Some(Some(SqlValue::Null))), Err(AdapterError::MalformedRow));
    assert_eq!(read_comment(Some(None)), Err(AdapterError::MalformedRow));
}

#[test]
fn names_are_read_from_the_first_cell() {
    assert_eq!(read_name(&vec![cell("people")]), Ok("people".to_string()));
    assert_eq!(read_name(&Vec::new()), Err(AdapterError::MalformedRow));
    assert_eq!(read_name(&vec![Some(SqlValue::Integer(1))]), Err(AdapterError::MalformedRow));
}

#[test]
fn a_missing_comment_defaults_to_the_name() {
    assert_eq!(comment_or_name(None, "people"), "people");
    assert_eq!(comment_or_name(Some("everyone".to_string()), "people"), "everyone");
    assert_eq!(comment_or_name(Some(String::new()), "people"), "");
}

#[test]
fn comment_tables_are_created_where_either_is_missing() {
    assert!(needs_comment_tables(0, 0));
    assert!(needs_comment_tables(1, 0));
    assert!(needs_comment_tables(0, 1));
    assert!(!needs_comment_tables(1, 1));
    let statements = comment_table_statements();
    assert_eq!(statements.len(), 3);
    assert!(statements[0].starts_with("CREATE TABLE IF NOT EXISTS [_table_comment]"));
    assert!(statements[1].starts_with("CREATE TABLE IF NOT EXISTS [_table_column_comment]"));
    assert!(statements[2].starts_with("CREATE UNIQUE INDEX IF NOT EXISTS [idx_table_column_unique]"));
}

// ---- errors ----

#[test]
fn every_error_has_its_message() {
    assert_eq!(AdapterError::ReadOnly(Mutation::Insert).message(), "Cannot insert in read-only mode");
    assert_eq!(AdapterError::ReadOnly(Mutation::Update).message(), "Cannot update in read-only mode");
    assert_eq!(AdapterError::ReadOnly(Mutation::Delete).message(), "Cannot delete in read-only mode");
    assert_eq!(
        AdapterError::ReadOnly(Mutation::SetTableComment).message(),
        "Cannot set table comment in read-only mode"
    );
    assert_eq!(
        AdapterError::ReadOnly(Mutation::SetColumnComment).message(),
        "Cannot set column comment in read-only mode"
    );
    assert_eq!(AdapterError::NotAnObject.message(), "Data must be a JSON object");
    assert_eq!(AdapterError::FilterNotAnObject.message(), "Filters must be a JSON object");
    assert_eq!(AdapterError::CompositePrimaryKey.message(), "Composite primary keys not supported");
    assert_eq!(
        AdapterError::TableNotFound { table: "t".to_string() }.message(),
        "Table 't' does not exist"
    );
    assert_eq!(
        AdapterError::ColumnNotFound { table: "t".to_string(), column: "c".to_string() }.message(),
        "Column 't'.'c' does not exist"
    );
    assert_eq!(
        AdapterError::BatchTooLarge { updates: false }.message(),
        "Maximum of 100 items allowed per batch"
    );
    assert_eq!(
        AdapterError::BatchTooLarge { updates: true }.message(),
        "Maximum of 100 updates allowed per batch"
    );
    assert_eq!(AdapterError::LockFailed.message(), "Failed to lock connection");
    assert_eq!(AdapterError::MalformedRow.message(), "Unexpected row in engine metadata");
    assert_eq!(AdapterError::TooManyRows.message(), "Result holds too many rows");
    assert_eq!(engine_failure("Failed to set table comment for 't'", "locked".to_string()).message(),
        "Failed to set table comment for 't': locked");
    assert_eq!(engine_failure("", "no such table: t".to_string()).message(), "no such table: t");
}

// ---- batches ----

#[test]
fn chunks_end_after_the_size_or_at_the_end() {
    assert_eq!(chunk_end(0, 3, 10), 3);
    assert_eq!(chunk_end(3, 3, 10), 6);
    assert_eq!(chunk_end(9, 3, 10), 10);
    assert_eq!(chunk_end(0, 50, 10), 10);
    assert_eq!(chunk_end(0, usize::MAX, 10), 10);
    assert_eq!(chunk_end(7, 3, 10), 10);
}

#[test]
fn failure_messages_name_the_item() {
    assert_eq!(insert_failure("NOT NULL constraint failed"), "Insert failed: NOT NULL constraint failed");
    assert_eq!(update_failure(42, "boom"), "Update failed for ID 42: boom");
    assert_eq!(update_failure(-1, ""), "Update failed for ID -1: ");
}

#[test]
fn a_clean_chunk_counts_as_succeeded() {
    let mut result = BatchResult::start(5, true);
    let mut chunk = ChunkOutcome::new(3);
    chunk.record_inserted(11);
    chunk.record_inserted(12);
    assert!(chunk.is_clean());
    result.record_chunk(chunk);
    assert_eq!(
        result,
        BatchResult { total: 5, succeeded: 3, failed: 0, errors: Vec::new(), inserted_ids: Some(vec![11, 12]) }
    );
}

#[test]
fn a_chunk_with_an_error_counts_as_failed_as_a_whole() {
    let mut result = BatchResult::start(6, true);
    let mut clean = ChunkOutcome::new(3);
    clean.record_inserted(1);
    result.record_chunk(clean);
    let mut broken = ChunkOutcome::new(3);
    broken.record_inserted(2);
    broken.record_failure("Insert failed: x".to_string());
    broken.record_inserted(3);
    assert!(!broken.is_clean());
    result.record_chunk(broken);
    assert_eq!(
        result,
        BatchResult {
            total: 6,
            succeeded: 3,
            failed: 3,
            errors: vec!["Insert failed: x".to_string()],
            inserted_ids: Some(vec![1]),
        }
    );
}

#[test]
fn update_batches_collect_no_ids() {
    let mut result = BatchResult::start(2, false);
    let mut chunk = ChunkOutcome::new(2);
    chunk.record_inserted(9);
    result.record_chunk(chunk);
    assert_eq!(
        result,
        BatchResult { total: 2, succeeded: 2, failed: 0, errors: Vec::new(), inserted_ids: None }
    );
    assert_eq!(
        BatchResult::empty(),
        BatchResult { total: 0, succeeded: 0, failed: 0, errors: Vec::new(), inserted_ids: None }
    );
}

#[test]
fn a_schema_is_assembled_from_what_was_read() {
    let columns = vec![column("id", true), column("name", false), column("age", false)];
    let comments = vec![None, Some("full name".to_string()), Some("age".to_string())];
    let schema = TableSchema::assemble("people", &columns, "id".to_string(), None, &comments);
    assert_eq!(
        schema,
        TableSchema {
            name: "people".to_string(),
            desc: Some("people".to_string()),
            columns: vec![
                ColumnInfo { desc: Some("id".to_string()), ..column("id", true) },
                ColumnInfo { desc: Some("full name".to_string()), ..column("name", false) },
                ColumnInfo { desc: Some("age".to_string()), ..column("age", false) },
            ],
            primary_key: Some("id".to_string()),
        }
    );
    let schema = TableSchema::assemble(
        "people",
        &Vec::new(),
        "rowid".to_string(),
        Some("everyone".to_string()),
        &Vec::new(),
    );
    assert_eq!(schema.desc, Some("everyone".to_string()));
    assert!(schema.columns.is_empty());
    assert_eq!(schema.primary_key, Some("rowid".to_string()));
}

#[test]
fn the_first_cell_of_an_answer_is_taken() {
    assert_eq!(first_of(Vec::new()), Ok(None));
    assert_eq!(first_of(vec![Vec::new()]), Err(AdapterError::MalformedRow));
    assert_eq!(
        first_of(vec![vec![cell("a"), cell("b")], vec![cell("c")]]),
        Ok(Some(cell("a")))
    );
    assert_eq!(first_of(vec![vec![None, cell("b")]]), Ok(Some(None)));
    assert_eq!(
        first_of(vec![vec![Some(SqlValue::Integer(4))], Vec::new()]),
        Ok(Some(Some(SqlValue::Integer(4))))
    );
}

#[test]
fn a_count_above_zero_says_present() {
    assert!(is_present(1));
    assert!(is_present(i64::MAX));
    assert!(!is_present(0));
    assert!(!is_present(-1));
}

#[test]
fn names_are_read_row_by_row() {
    assert_eq!(read_names(&Vec::new()), Ok(Vec::new()));
    assert_eq!(
        read_names(&vec![vec![cell("apple")], vec![cell("zebra"), cell("extra")]]),
        Ok(vec!["apple".to_string(), "zebra".to_string()])
    );
    assert_eq!(
        read_names(&vec![vec![cell("apple")], vec![Some(SqlValue::Null)]]),
        Err(AdapterError::MalformedRow)
    );
    assert_eq!(read_names(&vec![Vec::new()]), Err(AdapterError::MalformedRow));
}

#[test]
fn columns_are_read_row_by_row() {
    let row = |name: &str, key: i64| {
        vec![
            Some(SqlValue::Integer(0)),
            cell(name),
            cell("TEXT"),
            Some(SqlValue::Integer(0)),
            Some(SqlValue::Null),
            Some(SqlValue::Integer(key)),
        ]
    };
    assert_eq!(read_columns(&Vec::new()), Ok(Vec::new()));
    assert_eq!(
        read_columns(&vec![row("id", 1), row("name", 0)]),
        Ok(vec![column("id", true), column("name", false)])
    );
    let mut broken = row("age", 0);
    broken[1] = None;
    assert_eq!(
        read_columns(&vec![row("id", 1), broken, row("name", 0)]),
        Err(AdapterError::MalformedRow)
    );
}

fn info_row(name: &str, key: i64) -> Vec<Option<SqlValue>> {
    vec![
        Some(SqlValue::Integer(0)),
        cell(name),
        cell("TEXT"),
        Some(SqlValue::Integer(0)),
        Some(SqlValue::Null),
        Some(SqlValue::Integer(key)),
    ]
}

fn xinfo_row(name: Option<SqlValue>, hidden: i64) -> Vec<Option<SqlValue>> {
    vec![
        Some(SqlValue::Integer(0)),
        name,
        cell("TEXT"),
        Some(SqlValue::Integer(0)),
        Some(SqlValue::Null),
        Some(SqlValue::Integer(0)),
        Some(SqlValue::Integer(hidden)),
    ]
}

#[test]
fn the_identity_is_read_from_the_rows_of_the_answer() {
    assert_eq!(read_identity(&Vec::new()), Ok("rowid".to_string()));
    assert_eq!(read_identity(&vec![info_row("a", 0), info_row("b", 0)]), Ok("rowid".to_string()));
    assert_eq!(read_identity(&vec![info_row("a", 0), info_row("code", 1)]), Ok("code".to_string()));
    // A composite key is refused: there is no falling back to the row identity.
    assert_eq!(
        read_identity(&vec![info_row("a", 1), info_row("b", 2)]),
        Err(AdapterError::CompositePrimaryKey)
    );
    assert_eq!(read_identity(&vec![info_row("a", 1), Vec::new()]), Err(AdapterError::MalformedRow));
}

#[test]
fn presence_and_counts_are_read_from_the_first_cell() {
    let counted = |n: i64| vec![vec![Some(SqlValue::Integer(n))]];
    assert_eq!(read_presence(counted(0)), Ok(false));
    assert_eq!(read_presence(counted(1)), Ok(true));
    assert_eq!(read_presence(counted(7)), Ok(true));
    assert_eq!(read_presence(Vec::new()), Err(AdapterError::MalformedRow));
    assert_eq!(read_presence(vec![Vec::new()]), Err(AdapterError::MalformedRow));
    assert_eq!(read_presence(vec![vec![cell("1")]]), Err(AdapterError::MalformedRow));
    assert_eq!(read_counted(counted(0)), Ok(0));
    assert_eq!(read_counted(counted(12)), Ok(12));
    assert_eq!(read_counted(Vec::new()), Err(AdapterError::MalformedRow));
    assert_eq!(read_counted(vec![vec![None]]), Err(AdapterError::MalformedRow));
}

#[test]
fn a_comment_needs_what_it_describes() {
    assert_eq!(require_table(true, "t"), Ok(()));
    assert_eq!(require_table(false, "t"), Err(AdapterError::TableNotFound { table: "t".to_string() }));
    assert_eq!(require_column(true, "t", "c"), Ok(()));
    assert_eq!(
        require_column(false, "t", "c"),
        Err(AdapterError::ColumnNotFound { table: "t".to_string(), column: "c".to_string() })
    );
}

#[test]
fn catalogue_statements_are_fixed() {
    let listing = list_tables_statement();
    assert_eq!(
        listing.sql,
        "SELECT name FROM sqlite_master WHERE type='table' AND name NOT LIKE 'sqlite_%' ORDER BY name"
    );
    assert!(listing.params.is_empty());
    let table = table_exists_statement("people");
    assert_eq!(table.sql, "SELECT COUNT(*) FROM sqlite_master WHERE type='table' AND name=?");
    assert_eq!(table.params, vec![SqlValue::Text("people".to_string())]);
    let column = column_exists_statement("people", "age");
    assert_eq!(column.sql, "SELECT COUNT(*) FROM pragma_table_info(?) WHERE name=?");
    assert_eq!(
        column.params,
        vec![SqlValue::Text("people".to_string()), SqlValue::Text("age".to_string())]
    );
    assert_eq!(table_check_words("people"), "Failed to check if table 'people' exists");
    assert_eq!(column_check_words("people", "age"), "Failed to check if column 'people'.'age' exists");
}

#[test]
fn comment_statements_are_fixed() {
    let t = |s: &str| SqlValue::Text(s.to_string());
    let statement = table_comment_count_statement();
    assert_eq!(
        statement.sql,
        "SELECT COUNT(*) FROM sqlite_master WHERE type='table' AND name='_table_comment'"
    );
    assert!(statement.params.is_empty());
    let statement = column_comment_count_statement();
    assert_eq!(
        statement.sql,
        "SELECT COUNT(*) FROM sqlite_master WHERE type='table' AND name='_table_column_comment'"
    );
    assert!(statement.params.is_empty());
    let statement = comment_index_statement();
    assert_eq!(
        statement.sql,
        "CREATE UNIQUE INDEX IF NOT EXISTS [idx_table_column_unique] ON [_table_column_comment] ([table_name] ASC, [column_name] ASC)"
    );
    assert!(statement.params.is_empty());
    // Defaults never replace a stored comment; setting one does.
    let statement = default_table_comment_statement("people");
    assert_eq!(
        statement.sql,
        "INSERT OR IGNORE INTO _table_comment (table_name, table_desc) VALUES (?, ?)"
    );
    assert_eq!(statement.params, vec![t("people"), t("people")]);
    let statement = default_column_comment_statement("people", "age");
    assert_eq!(
        statement.sql,
        "INSERT OR IGNORE INTO _table_column_comment (table_name, column_name, column_desc) VALUES (?, ?, ?)"
    );
    assert_eq!(statement.params, vec![t("people"), t("age"), t("age")]);
    let statement = table_comment_statement("people", "folk");
    assert_eq!(
        statement.sql,
        "INSERT OR REPLACE INTO _table_comment (table_name, table_desc) VALUES (?, ?)"
    );
    assert_eq!(statement.params, vec![t("people"), t("folk")]);
    let statement = column_comment_statement("people", "age", "years");
    assert_eq!(
        statement.sql,
        "INSERT OR REPLACE INTO _table_column_comment (table_name, column_name, column_desc) VALUES (?, ?, ?)"
    );
    assert_eq!(statement.params, vec![t("people"), t("age"), t("years")]);
    let statement = table_comment_query("people");
    assert_eq!(statement.sql, "SELECT table_desc FROM _table_comment WHERE table_name = ?");
    assert_eq!(statement.params, vec![t("people")]);
    let statement = column_comment_query("people", "age");
    assert_eq!(
        statement.sql,
        "SELECT column_desc FROM _table_column_comment WHERE table_name = ? AND column_name = ?"
    );
    assert_eq!(statement.params, vec![t("people"), t("age")]);
    assert_eq!(set_table_comment_words("people"), "Failed to set table comment for 'people'");
    assert_eq!(
        set_column_comment_words("people", "age"),
        "Failed to set column comment for 'people.age'"
    );
}

#[test]
fn a_stored_comment_is_read_from_the_answer() {
    assert_eq!(read_stored_comment(Vec::new()), Ok(None));
    assert_eq!(read_stored_comment(vec![vec![cell("folk")]]), Ok(Some("folk".to_string())));
    assert_eq!(
        read_stored_comment(vec![vec![Some(SqlValue::Null)]]),
        Err(AdapterError::MalformedRow)
    );
    assert_eq!(read_stored_comment(vec![Vec::new()]), Err(AdapterError::MalformedRow));
}

#[test]
fn selected_names_leave_out_hidden_columns() {
    assert!(read_selected_names(&Vec::new()).is_empty());
    let rows = vec![
        xinfo_row(cell("a"), 0),
        xinfo_row(cell("secret"), 1),
        xinfo_row(cell("b"), 2),
        xinfo_row(cell("c"), 3),
        xinfo_row(None, 0),
        vec![Some(SqlValue::Integer(0))],
    ];
    assert_eq!(
        read_selected_names(&rows),
        vec!["a".to_string(), "b".to_string(), "c".to_string(), "unknown".to_string(), "unknown".to_string()]
    );
}

#[test]
fn answers_are_noted_on_the_chunk() {
    let mut chunk = ChunkOutcome::new(4);
    chunk.record_insert(Ok(5));
    chunk.record_insert(Err("no such column: x".to_string()));
    chunk.record_insert(Ok(6));
    assert_eq!(
        chunk,
        ChunkOutcome {
            size: 4,
            errors: vec!["Insert failed: no such column: x".to_string()],
            inserted_ids: vec![5, 6],
        }
    );
    let mut chunk = ChunkOutcome::new(3);
    chunk.record_update(1, Ok(1));
    chunk.record_update(2, Ok(0));
    assert!(chunk.is_clean());
    chunk.record_update(-3, Err("boom".to_string()));
    assert_eq!(
        chunk,
        ChunkOutcome {
            size: 3,
            errors: vec!["Update failed for ID -3: boom".to_string()],
            inserted_ids: Vec::new(),
        }
    );
}
