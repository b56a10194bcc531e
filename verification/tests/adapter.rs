use rusqlite::Connection;
use serde_json::{Number, Value};
use sqlite_mcp::error::{AdapterError, Mutation};
use sqlite_mcp::filter::QueryFilter;
use sqlite_mcp::sqlite::SqliteDatabase;

fn db_path(name: &str) -> String {
    format!("/tmp/sqlite_mcp_test_{}.db", name)
}

/// A database file holding exactly what `ddl` creates.
fn fresh(name: &str, ddl: &[&str]) -> String {
    let path = db_path(name);
    let conn = Connection::open(&path).unwrap();
    let tables: Vec<String> = {
        let mut stmt = conn
            .prepare("SELECT name FROM sqlite_master WHERE type='table' AND name NOT LIKE 'sqlite_%'")
            .unwrap();
        let rows = stmt.query_map([], |row| row.get::<_, String>(0)).unwrap();
        rows.map(|r| r.unwrap()).collect()
    };
    for table in tables {
        conn.execute(&format!("DROP TABLE [{}]", table), []).unwrap();
    }
    for statement in ddl {
        conn.execute(statement, []).unwrap();
    }
    path
}

fn count(path: &str, table: &str) -> i64 {
    let conn = Connection::open(path).unwrap();
    conn.query_row(&format!("SELECT COUNT(*) FROM {}", table), [], |row| row.get(0)).unwrap()
}

fn object(members: Vec<(&str, Value)>) -> Value {
    let mut map = serde_json::Map::new();
    for (key, value) in members {
        map.insert(key.to_string(), value);
    }
    Value::Object(map)
}

fn text(s: &str) -> Value {
    Value::String(s.to_string())
}

fn whole(i: i64) -> Value {
    Value::Number(Number::from(i))
}

const PEOPLE: &str = "CREATE TABLE people (id INTEGER PRIMARY KEY, name TEXT NOT NULL, age INTEGER DEFAULT 0)";

#[test]
fn list_tables_is_sorted_and_skips_engine_tables() {
    let path = fresh(
        "list",
        &[
            "CREATE TABLE zebra (id INTEGER PRIMARY KEY AUTOINCREMENT, v TEXT)",
            "CREATE TABLE apple (id INTEGER PRIMARY KEY, v TEXT)",
            "INSERT INTO zebra (v) VALUES ('x')",
        ],
    );
    let db = SqliteDatabase::new(&path, false).unwrap();
    assert_eq!(db.list_tables().unwrap(), vec!["apple".to_string(), "zebra".to_string()]);
}

#[test]
fn opening_a_missing_file_read_only_fails() {
    let opened = SqliteDatabase::new("/tmp/sqlite_mcp_test_no_such_dir/none.db", true);
    assert!(matches!(opened, Err(AdapterError::Engine { .. })));
}

#[test]
fn is_readonly_reports_the_mode() {
    let path = fresh("mode", &[PEOPLE]);
    assert!(!SqliteDatabase::new(&path, false).unwrap().is_readonly());
    assert!(SqliteDatabase::new(&path, true).unwrap().is_readonly());
}

#[test]
fn insert_returns_the_row_identity() {
    let path = fresh("insert", &[PEOPLE]);
    let db = SqliteDatabase::new(&path, false).unwrap();
    let first = db.insert("people", object(vec![("name", text("Ann")), ("age", whole(30))])).unwrap();
    let second = db.insert("people", object(vec![("name", text("Bob"))])).unwrap();
    assert_eq!(first, 1);
    assert_eq!(second, 2);
    assert_eq!(count(&path, "people"), 2);
}

#[test]
fn insert_refuses_what_is_not_an_object() {
    let path = fresh("insert_shape", &[PEOPLE]);
    let db = SqliteDatabase::new(&path, false).unwrap();
    assert_eq!(db.insert("people", text("Ann")), Err(AdapterError::NotAnObject));
    assert_eq!(db.insert("people", Value::Array(vec![whole(1)])), Err(AdapterError::NotAnObject));
    assert_eq!(db.update("people", 1, Value::Null), Err(AdapterError::NotAnObject));
    assert_eq!(count(&path, "people"), 0);
}

#[test]
fn insert_into_a_missing_column_is_an_engine_error() {
    let path = fresh("insert_engine", &[PEOPLE]);
    let db = SqliteDatabase::new(&path, false).unwrap();
    let result = db.insert("people", object(vec![("nope", whole(1))]));
    assert!(matches!(result, Err(AdapterError::Engine { .. })));
}

#[test]
fn select_decodes_every_row() {
    let path = fresh("select", &[PEOPLE]);
    let db = SqliteDatabase::new(&path, false).unwrap();
    db.insert("people", object(vec![("name", text("Ann")), ("age", whole(30))])).unwrap();
    db.insert("people", object(vec![("name", text("Bob")), ("age", whole(41))])).unwrap();
    let rows = db.select("people", None, None, None).unwrap();
    assert_eq!(
        rows,
        vec![
            object(vec![("id", whole(1)), ("name", text("Ann")), ("age", whole(30))]),
            object(vec![("id", whole(2)), ("name", text("Bob")), ("age", whole(41))]),
        ]
    );
}

#[test]
fn select_applies_filter_limit_and_offset() {
    let path = fresh("select_filter", &[PEOPLE]);
    let db = SqliteDatabase::new(&path, false).unwrap();
    for (name, age) in [("Ann", 30), ("Bob", 41), ("Cy", 52), ("Di", 63)] {
        db.insert("people", object(vec![("name", text(name)), ("age", whole(age))])).unwrap();
    }
    let older = QueryFilter::from_json(&object(vec![("age", object(vec![("$gt", whole(35))]))])).unwrap();
    let rows = db.select("people", Some(older), None, None).unwrap();
    assert_eq!(rows.len(), 3);

    let exact = QueryFilter::from_json(&object(vec![("name", text("Cy"))])).unwrap();
    let rows = db.select("people", Some(exact), None, None).unwrap();
    assert_eq!(rows, vec![object(vec![("id", whole(3)), ("name", text("Cy")), ("age", whole(52))])]);

    let rows = db.select("people", None, Some(2), Some(1)).unwrap();
    assert_eq!(rows.len(), 2);
    assert_eq!(rows[0].get("name"), Some(&text("Bob")));
    assert_eq!(rows[1].get("name"), Some(&text("Cy")));

    // An offset alone skips rows and limits nothing.
    let rows = db.select("people", None, None, Some(1)).unwrap();
    assert_eq!(rows.len(), 3);
    assert_eq!(rows[0].get("name"), Some(&text("Bob")));
    assert_eq!(db.select("people", None, None, Some(9)).unwrap().len(), 0);
    assert_eq!(db.select("people", None, Some(0), None).unwrap().len(), 0);

    let empty = QueryFilter::from_json(&object(vec![])).unwrap();
    assert_eq!(db.select("people", Some(empty), None, None).unwrap().len(), 4);
}

#[test]
fn operators_on_one_column_select_either() {
    let path = fresh("select_or", &[PEOPLE]);
    let db = SqliteDatabase::new(&path, false).unwrap();
    for (name, age) in [("Ann", 5), ("Bob", 50), ("Cy", 500)] {
        db.insert("people", object(vec![("name", text(name)), ("age", whole(age))])).unwrap();
    }
    // age > 100 OR age < 10: the two ends, not the middle.
    let filter = QueryFilter::from_json(&object(vec![(
        "age",
        object(vec![("$gt", whole(100)), ("$lt", whole(10))]),
    )]))
    .unwrap();
    let rows = db.select("people", Some(filter), None, None).unwrap();
    assert_eq!(rows.len(), 2);
    assert_eq!(rows[0].get("name"), Some(&text("Ann")));
    assert_eq!(rows[1].get("name"), Some(&text("Cy")));
}

#[test]
fn stored_text_that_is_json_reads_back_reparsed() {
    let path = fresh("reparse", &["CREATE TABLE notes (id INTEGER PRIMARY KEY, body TEXT)"]);
    let db = SqliteDatabase::new(&path, false).unwrap();
    db.insert("notes", object(vec![("body", text("42"))])).unwrap();
    db.insert("notes", object(vec![("body", text("plain"))])).unwrap();
    db.insert("notes", object(vec![("body", Value::Array(vec![whole(1), whole(2)]))])).unwrap();
    db.insert("notes", object(vec![("body", text("true"))])).unwrap();
    db.insert("notes", object(vec![("body", Value::Null)])).unwrap();
    let rows = db.select("notes", None, None, None).unwrap();
    assert_eq!(rows[0].get("body"), Some(&whole(42)));
    assert_eq!(rows[1].get("body"), Some(&text("plain")));
    assert_eq!(rows[2].get("body"), Some(&Value::Array(vec![whole(1), whole(2)])));
    assert_eq!(rows[3].get("body"), Some(&Value::Bool(true)));
    assert_eq!(rows[4].get("body"), Some(&Value::Null));
}

#[test]
fn floats_and_blobs_read_back() {
    let path = fresh(
        "float",
        &[
            "CREATE TABLE m (id INTEGER PRIMARY KEY, x REAL, b BLOB)",
            "INSERT INTO m (x, b) VALUES (1.5, x'0102')",
            "INSERT INTO m (x, b) VALUES (9e999, NULL)",
        ],
    );
    let db = SqliteDatabase::new(&path, false).unwrap();
    db.insert("m", object(vec![("x", Value::Number(Number::from_f64(2.25).unwrap()))])).unwrap();
    let rows = db.select("m", None, None, None).unwrap();
    assert_eq!(rows[0].get("x"), Some(&Value::Number(Number::from_f64(1.5).unwrap())));
    assert_eq!(rows[0].get("b"), Some(&Value::Null));
    // An infinite value has no JSON number.
    assert_eq!(rows[1].get("x"), Some(&Value::Null));
    assert_eq!(rows[2].get("x"), Some(&Value::Number(Number::from_f64(2.25).unwrap())));
}

#[test]
fn update_changes_the_addressed_row() {
    let path = fresh("update", &[PEOPLE]);
    let db = SqliteDatabase::new(&path, false).unwrap();
    db.insert("people", object(vec![("name", text("Ann")), ("age", whole(30))])).unwrap();
    db.insert("people", object(vec![("name", text("Bob")), ("age", whole(41))])).unwrap();
    assert_eq!(db.update("people", 2, object(vec![("age", whole(42)), ("name", text("Rob"))])), Ok(1));
    assert_eq!(db.update("people", 99, object(vec![("age", whole(1))])), Ok(0));
    let rows = db.select("people", None, None, None).unwrap();
    assert_eq!(rows[0], object(vec![("id", whole(1)), ("name", text("Ann")), ("age", whole(30))]));
    assert_eq!(rows[1], object(vec![("id", whole(2)), ("name", text("Rob")), ("age", whole(42))]));
}

#[test]
fn update_and_delete_use_the_declared_key() {
    let path = fresh("named_key", &["CREATE TABLE items (code INTEGER PRIMARY KEY, label TEXT)"]);
    let db = SqliteDatabase::new(&path, false).unwrap();
    db.insert("items", object(vec![("code", whole(70)), ("label", text("a"))])).unwrap();
    db.insert("items", object(vec![("code", whole(80)), ("label", text("b"))])).unwrap();
    assert_eq!(db.update("items", 80, object(vec![("label", text("c"))])), Ok(1));
    assert_eq!(db.delete("items", 70), Ok(1));
    let rows = db.select("items", None, None, None).unwrap();
    assert_eq!(rows, vec![object(vec![("code", whole(80)), ("label", text("c"))])]);
}

#[test]
fn tables_without_a_key_are_addressed_by_rowid() {
    let path = fresh("rowid", &["CREATE TABLE logs (line TEXT)"]);
    let db = SqliteDatabase::new(&path, false).unwrap();
    let first = db.insert("logs", object(vec![("line", text("one"))])).unwrap();
    let second = db.insert("logs", object(vec![("line", text("two"))])).unwrap();
    assert_eq!(db.update("logs", first, object(vec![("line", text("uno"))])), Ok(1));
    assert_eq!(db.delete("logs", second), Ok(1));
    assert_eq!(db.select("logs", None, None, None).unwrap(), vec![object(vec![("line", text("uno"))])]);
    assert_eq!(db.get_schema("logs").unwrap().primary_key, Some("rowid".to_string()));
}

#[test]
fn composite_keys_are_refused() {
    let path = fresh("composite", &["CREATE TABLE pairs (a INTEGER, b INTEGER, v TEXT, PRIMARY KEY (a, b))", "INSERT INTO pairs VALUES (1, 2, 'x')"]);
    let db = SqliteDatabase::new(&path, false).unwrap();
    assert_eq!(db.get_schema("pairs"), Err(AdapterError::CompositePrimaryKey));
    assert_eq!(db.update("pairs", 1, object(vec![("v", text("y"))])), Err(AdapterError::CompositePrimaryKey));
    assert_eq!(db.delete("pairs", 1), Err(AdapterError::CompositePrimaryKey));
    assert_eq!(db.batch_delete("pairs", vec![1]), Err(AdapterError::CompositePrimaryKey));
    assert_eq!(
        db.batch_update("pairs", vec![(1, object(vec![("v", text("y"))]))], 50),
        Err(AdapterError::CompositePrimaryKey)
    );
    assert_eq!(count(&path, "pairs"), 1);
}

#[test]
fn delete_removes_the_addressed_row() {
    let path = fresh("delete", &[PEOPLE]);
    let db = SqliteDatabase::new(&path, false).unwrap();
    db.insert("people", object(vec![("name", text("Ann"))])).unwrap();
    db.insert("people", object(vec![("name", text("Bob"))])).unwrap();
    assert_eq!(db.delete("people", 1), Ok(1));
    assert_eq!(db.delete("people", 1), Ok(0));
    assert_eq!(count(&path, "people"), 1);
}

#[test]
fn get_schema_reports_columns_and_defaults_comments() {
    let path = fresh("schema", &["CREATE TABLE t (id INTEGER PRIMARY KEY, name TEXT NOT NULL, score REAL DEFAULT 1.5, anything)"]);
    let db = SqliteDatabase::new(&path, false).unwrap();
    let schema = db.get_schema("t").unwrap();
    assert_eq!(schema.name, "t");
    assert_eq!(schema.desc, Some("t".to_string()));
    assert_eq!(schema.primary_key, Some("id".to_string()));
    assert_eq!(schema.columns.len(), 4);
    let id = &schema.columns[0];
    assert_eq!(id.name, "id");
    assert_eq!(id.desc, Some("id".to_string()));
    assert_eq!(id.data_type, "INTEGER");
    assert!(id.is_primary_key);
    assert!(!id.not_null);
    assert_eq!(id.default_value, None);
    let name = &schema.columns[1];
    assert_eq!(name.desc, Some("name".to_string()));
    assert!(name.not_null);
    assert!(!name.is_primary_key);
    let score = &schema.columns[2];
    assert_eq!(score.data_type, "REAL");
    assert_eq!(score.default_value, Some("1.5".to_string()));
    assert_eq!(schema.columns[3].name, "anything");
    assert_eq!(schema.columns[3].desc, Some("anything".to_string()));
}

#[test]
fn get_schema_creates_the_comment_tables_once() {
    let path = fresh("aux", &[PEOPLE]);
    let db = SqliteDatabase::new(&path, false).unwrap();
    db.get_schema("people").unwrap();
    assert_eq!(count(&path, "_table_comment"), 1);
    assert_eq!(count(&path, "_table_column_comment"), 3);
    db.get_schema("people").unwrap();
    assert_eq!(count(&path, "_table_comment"), 1);
    assert_eq!(count(&path, "_table_column_comment"), 3);
}

#[test]
fn set_column_comment_changes_only_that_column() {
    let path = fresh("comments", &[PEOPLE]);
    let db = SqliteDatabase::new(&path, false).unwrap();
    let before = db.get_schema("people").unwrap();
    db.set_column_comment("people", "age", "years since birth").unwrap();
    let after = db.get_schema("people").unwrap();
    assert_eq!(after.desc, before.desc);
    assert_eq!(after.columns[0], before.columns[0]);
    assert_eq!(after.columns[1], before.columns[1]);
    assert_eq!(after.columns[2].desc, Some("years since birth".to_string()));
    assert_eq!(after.columns[2].name, before.columns[2].name);
    db.set_table_comment("people", "everyone we know").unwrap();
    let last = db.get_schema("people").unwrap();
    assert_eq!(last.desc, Some("everyone we know".to_string()));
    assert_eq!(last.columns, after.columns);
}

#[test]
fn comments_need_an_existing_table_and_column() {
    let path = fresh("comment_missing", &[PEOPLE]);
    let db = SqliteDatabase::new(&path, false).unwrap();
    assert_eq!(
        db.set_table_comment("ghosts", "x"),
        Err(AdapterError::TableNotFound { table: "ghosts".to_string() })
    );
    assert_eq!(
        db.set_column_comment("ghosts", "name", "x"),
        Err(AdapterError::TableNotFound { table: "ghosts".to_string() })
    );
    assert_eq!(
        db.set_column_comment("people", "height", "x"),
        Err(AdapterError::ColumnNotFound { table: "people".to_string(), column: "height".to_string() })
    );
}

#[test]
fn batch_insert_rolls_back_the_chunk_with_the_bad_item() {
    let path = fresh("batch_insert", &[PEOPLE]);
    let db = SqliteDatabase::new(&path, false).unwrap();
    let mut items = Vec::new();
    for i in 0..10 {
        if i == 4 {
            // name is NOT NULL: the engine rejects this item.
            items.push(object(vec![("age", whole(i))]));
        } else {
            items.push(object(vec![("name", text(&format!("row{}", i))), ("age", whole(i))]));
        }
    }
    let result = db.batch_insert("people", items, 3).unwrap();
    assert_eq!(result.total, 10);
    assert_eq!(result.succeeded, 7);
    assert_eq!(result.failed, 3);
    assert_eq!(result.errors.len(), 1);
    assert!(result.errors[0].starts_with("Insert failed: "));
    assert_eq!(result.inserted_ids.as_ref().map(|ids| ids.len()), Some(7));
    assert_eq!(count(&path, "people"), 7);
    let rows = db.select("people", None, None, None).unwrap();
    let names: Vec<&Value> = rows.iter().map(|r| r.get("name").unwrap()).collect();
    assert_eq!(
        names,
        vec![
            &text("row0"),
            &text("row1"),
            &text("row2"),
            &text("row6"),
            &text("row7"),
            &text("row8"),
            &text("row9"),
        ]
    );
}

#[test]
fn batch_insert_reports_ids_in_order() {
    let path = fresh("batch_ids", &[PEOPLE]);
    let db = SqliteDatabase::new(&path, false).unwrap();
    let items = vec![
        object(vec![("name", text("a"))]),
        object(vec![("name", text("b"))]),
        object(vec![("name", text("c"))]),
    ];
    let result = db.batch_insert("people", items, 2).unwrap();
    assert_eq!(result.total, 3);
    assert_eq!(result.succeeded, 3);
    assert_eq!(result.failed, 0);
    assert!(result.errors.is_empty());
    assert_eq!(result.inserted_ids, Some(vec![1, 2, 3]));
}

#[test]
fn empty_batches_do_nothing() {
    let path = fresh("batch_empty", &[PEOPLE]);
    let db = SqliteDatabase::new(&path, false).unwrap();
    let inserted = db.batch_insert("people", Vec::new(), 50).unwrap();
    assert_eq!((inserted.total, inserted.succeeded, inserted.failed), (0, 0, 0));
    assert!(inserted.errors.is_empty());
    assert_eq!(inserted.inserted_ids, None);
    let updated = db.batch_update("people", Vec::new(), 50).unwrap();
    assert_eq!((updated.total, updated.succeeded, updated.failed), (0, 0, 0));
    assert_eq!(updated.inserted_ids, None);
    assert_eq!(db.batch_delete("people", Vec::new()), Ok(0));
}

#[test]
fn batch_update_rolls_back_the_chunk_with_the_bad_item() {
    let path = fresh("batch_update", &[PEOPLE]);
    let db = SqliteDatabase::new(&path, false).unwrap();
    for name in ["a", "b", "c", "d", "e"] {
        db.insert("people", object(vec![("name", text(name)), ("age", whole(1))])).unwrap();
    }
    let updates = vec![
        (1, object(vec![("age", whole(10))])),
        (2, object(vec![("age", whole(20))])),
        (3, object(vec![("age", whole(30))])),
        (4, object(vec![("name", Value::Null)])),
        (5, object(vec![("age", whole(50))])),
    ];
    let result = db.batch_update("people", updates, 2).unwrap();
    assert_eq!(result.total, 5);
    assert_eq!(result.succeeded, 3);
    assert_eq!(result.failed, 2);
    assert_eq!(result.errors.len(), 1);
    assert!(result.errors[0].starts_with("Update failed for ID 4: "));
    assert_eq!(result.inserted_ids, None);
    let rows = db.select("people", None, None, None).unwrap();
    let ages: Vec<&Value> = rows.iter().map(|r| r.get("age").unwrap()).collect();
    assert_eq!(ages, vec![&whole(10), &whole(20), &whole(1), &whole(1), &whole(50)]);
}

#[test]
fn batch_delete_removes_all_named_rows_at_once() {
    let path = fresh("batch_delete", &[PEOPLE]);
    let db = SqliteDatabase::new(&path, false).unwrap();
    for name in ["a", "b", "c", "d"] {
        db.insert("people", object(vec![("name", text(name))])).unwrap();
    }
    assert_eq!(db.batch_delete("people", vec![1, 3, 99]), Ok(2));
    assert_eq!(count(&path, "people"), 2);
}

#[test]
fn a_read_only_adapter_refuses_every_mutation() {
    let path = fresh("readonly", &[PEOPLE, "INSERT INTO people (name, age) VALUES ('Ann', 30)"]);
    let db = SqliteDatabase::new(&path, true).unwrap();
    let row = || object(vec![("name", text("Bob"))]);
    assert_eq!(db.insert("people", row()), Err(AdapterError::ReadOnly(Mutation::Insert)));
    assert_eq!(db.update("people", 1, row()), Err(AdapterError::ReadOnly(Mutation::Update)));
    assert_eq!(db.delete("people", 1), Err(AdapterError::ReadOnly(Mutation::Delete)));
    assert_eq!(db.batch_insert("people", vec![row()], 50), Err(AdapterError::ReadOnly(Mutation::Insert)));
    assert_eq!(db.batch_insert("people", Vec::new(), 50), Err(AdapterError::ReadOnly(Mutation::Insert)));
    assert_eq!(db.batch_update("people", vec![(1, row())], 50), Err(AdapterError::ReadOnly(Mutation::Update)));
    assert_eq!(db.batch_delete("people", vec![1]), Err(AdapterError::ReadOnly(Mutation::Delete)));
    assert_eq!(db.set_table_comment("people", "x"), Err(AdapterError::ReadOnly(Mutation::SetTableComment)));
    assert_eq!(
        db.set_column_comment("people", "name", "x"),
        Err(AdapterError::ReadOnly(Mutation::SetColumnComment))
    );
    // Reading still works, and nothing was changed.
    let rows = db.select("people", None, None, None).unwrap();
    assert_eq!(rows, vec![object(vec![("id", whole(1)), ("name", text("Ann")), ("age", whole(30))])]);
    assert_eq!(db.list_tables().unwrap(), vec!["people".to_string()]);
}

#[test]
fn text_that_is_not_utf8_reads_back_as_null() {
    let path = fresh(
        "bad_text",
        &[
            "CREATE TABLE raw (id INTEGER PRIMARY KEY, body TEXT)",
            "INSERT INTO raw (body) VALUES (CAST(x'ff' AS TEXT))",
            "INSERT INTO raw (body) VALUES ('fine')",
        ],
    );
    let db = SqliteDatabase::new(&path, false).unwrap();
    let rows = db.select("raw", None, None, None).unwrap();
    assert_eq!(rows[0], object(vec![("id", whole(1)), ("body", Value::Null)]));
    assert_eq!(rows[1], object(vec![("id", whole(2)), ("body", text("fine"))]));
}

#[test]
fn engine_errors_carry_the_engine_words() {
    let path = fresh("engine_words", &[PEOPLE]);
    let db = SqliteDatabase::new(&path, false).unwrap();
    assert_eq!(
        db.select("nowhere", None, None, None),
        Err(AdapterError::Engine { context: String::new(), detail: "no such table: nowhere".to_string() })
    );
    let result = db.batch_insert("people", vec![object(vec![("age", whole(1))])], 50).unwrap();
    assert_eq!(result.errors, vec!["Insert failed: NOT NULL constraint failed: people.name".to_string()]);
    assert_eq!((result.total, result.succeeded, result.failed), (1, 0, 1));
    assert_eq!(result.inserted_ids, Some(Vec::new()));
}

#[test]
fn batch_items_that_are_not_objects_run_no_statement() {
    let path = fresh("batch_shapes", &[PEOPLE]);
    let db = SqliteDatabase::new(&path, false).unwrap();
    let items = vec![object(vec![("name", text("a"))]), text("not a row"), object(vec![("name", text("b"))])];
    let result = db.batch_insert("people", items, 50).unwrap();
    assert_eq!((result.total, result.succeeded, result.failed), (3, 3, 0));
    assert!(result.errors.is_empty());
    assert_eq!(result.inserted_ids, Some(vec![1, 2]));
    assert_eq!(count(&path, "people"), 2);
}

#[test]
fn foreign_keys_are_enforced() {
    let path = fresh(
        "foreign",
        &[
            "CREATE TABLE owner (id INTEGER PRIMARY KEY)",
            "CREATE TABLE pet (id INTEGER PRIMARY KEY, owner_id INTEGER REFERENCES owner(id))",
        ],
    );
    let db = SqliteDatabase::new(&path, false).unwrap();
    let orphan = db.insert("pet", object(vec![("owner_id", whole(5))]));
    assert_eq!(
        orphan,
        Err(AdapterError::Engine { context: String::new(), detail: "FOREIGN KEY constraint failed".to_string() })
    );
    db.insert("owner", object(vec![("id", whole(5))])).unwrap();
    assert_eq!(db.insert("pet", object(vec![("owner_id", whole(5))])), Ok(1));
}

#[test]
fn a_missing_table_has_no_columns() {
    let path = fresh("no_table", &[PEOPLE]);
    let db = SqliteDatabase::new(&path, false).unwrap();
    let schema = db.get_schema("ghosts").unwrap();
    assert_eq!(schema.name, "ghosts");
    assert!(schema.columns.is_empty());
    assert_eq!(schema.primary_key, Some("rowid".to_string()));
    assert_eq!(schema.desc, Some("ghosts".to_string()));
}

#[test]
fn comment_failures_say_what_was_being_done() {
    let path = fresh("comment_context", &[PEOPLE]);
    let db = SqliteDatabase::new(&path, false).unwrap();
    db.get_schema("people").unwrap();
    // Without the comment relation the lookup itself fails.
    Connection::open(&path).unwrap().execute("DROP TABLE _table_comment", []).unwrap();
    Connection::open(&path)
        .unwrap()
        .execute("CREATE VIEW _table_comment AS SELECT 1 AS one", [])
        .unwrap();
    match db.get_schema("people") {
        Err(AdapterError::Engine { context, .. }) => {
            assert_eq!(context, "Failed to initialize default table comment for 'people'");
        }
        other => panic!("expected an engine error, got {:?}", other),
    }
    match db.set_table_comment("people", "x") {
        Err(AdapterError::Engine { context, .. }) => {
            assert_eq!(context, "Failed to set table comment for 'people'");
        }
        other => panic!("expected an engine error, got {:?}", other),
    }
    Connection::open(&path).unwrap().execute("DROP VIEW _table_comment", []).unwrap();
}

#[test]
fn engine_failures_name_the_step() {
    let path = fresh(
        "step_names",
        &[PEOPLE, "CREATE TABLE _table_column_comment (unrelated INTEGER)", "CREATE TABLE _table_comment (table_name TEXT, table_desc TEXT)"],
    );
    let db = SqliteDatabase::new(&path, false).unwrap();
    // The relation of column comments lacks the columns that the index needs.
    match db.get_schema("people") {
        Err(AdapterError::Engine { context, .. }) => {
            assert_eq!(context, "Failed to create index on _table_column_comment");
        }
        other => panic!("expected an engine error, got {:?}", other),
    }
    // A plain statement that the engine refuses carries no context.
    match db.delete("nowhere", 1) {
        Err(AdapterError::Engine { context, detail }) => {
            assert_eq!(context, "");
            assert_eq!(detail, "no such table: nowhere");
        }
        other => panic!("expected an engine error, got {:?}", other),
    }
}

#[test]
fn rows_are_named_without_asking_the_statement() {
    let path = fresh(
        "names",
        &[
            "CREATE TABLE sums (a INTEGER, b INTEGER GENERATED ALWAYS AS (a * 2) VIRTUAL, c TEXT)",
            "INSERT INTO sums (a, c) VALUES (4, 'four')",
        ],
    );
    let db = SqliteDatabase::new(&path, false).unwrap();
    let rows = db.select("sums", None, None, None).unwrap();
    assert_eq!(rows, vec![object(vec![("a", whole(4)), ("b", whole(8)), ("c", text("four"))])]);
}

#[test]
fn a_read_only_adapter_refuses_a_batch_of_any_size() {
    let path = fresh("readonly_sizes", &[PEOPLE]);
    let db = SqliteDatabase::new(&path, true).unwrap();
    let row = || object(vec![("name", text("Bob"))]);
    assert_eq!(db.batch_insert("people", vec![row()], 0), Err(AdapterError::ReadOnly(Mutation::Insert)));
    assert_eq!(db.batch_update("people", vec![(1, row())], 0), Err(AdapterError::ReadOnly(Mutation::Update)));
    assert_eq!(count(&path, "people"), 0);
}
