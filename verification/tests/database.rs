use rusqlite::types::{ToSql, ToSqlOutput, Value};
use rusqlite::{Connection, Row};
use rusqlite_helper::{tables, InsertConflictResolution, RusqliteHelperError, Session, Table};
use serde::de::{Error as DeError, MapAccess, Visitor};
use serde::ser::SerializeStruct;
use serde::{Deserialize, Deserializer, Serialize, Serializer};
use std::fmt;

#[derive(Debug, Clone, PartialEq)]
struct Item {
    a: String,
    b: i64,
}

impl Serialize for Item {
    fn serialize<S: Serializer>(&self, serializer: S) -> Result<S::Ok, S::Error> {
        let mut state = serializer.serialize_struct("Item", 2)?;
        state.serialize_field("a", &self.a)?;
        state.serialize_field("b", &self.b)?;
        state.end()
    }
}

struct ItemVisitor;

impl<'de> Visitor<'de> for ItemVisitor {
    type Value = Item;

    fn expecting(&self, formatter: &mut fmt::Formatter) -> fmt::Result {
        formatter.write_str("a row with the columns a and b")
    }

    fn visit_map<M: MapAccess<'de>>(self, mut map: M) -> Result<Item, M::Error> {
        let mut a: Option<String> = None;
        let mut b: Option<i64> = None;
        while let Some(key) = map.next_key::<String>()? {
            if key == "a" {
                a = Some(map.next_value()?);
            } else if key == "b" {
                b = Some(map.next_value()?);
            } else {
                return Err(M::Error::unknown_field("other", &["a", "b"]));
            }
        }
        let a = a.ok_or_else(|| M::Error::missing_field("a"))?;
        let b = b.ok_or_else(|| M::Error::missing_field("b"))?;
        Ok(Item { a, b })
    }
}

impl<'de> Deserialize<'de> for Item {
    fn deserialize<D: Deserializer<'de>>(deserializer: D) -> Result<Item, D::Error> {
        deserializer.deserialize_struct("Item", &["a", "b"], ItemVisitor)
    }
}

/// A record whose fields are not the columns of the table `items`.
#[derive(Debug)]
struct Stranger {
    a: String,
    c: i64,
}

struct StrangerVisitor;

impl<'de> Visitor<'de> for StrangerVisitor {
    type Value = Stranger;

    fn expecting(&self, formatter: &mut fmt::Formatter) -> fmt::Result {
        formatter.write_str("a row with the columns a and c")
    }

    fn visit_map<M: MapAccess<'de>>(self, mut map: M) -> Result<Stranger, M::Error> {
        let mut a: Option<String> = None;
        let mut c: Option<i64> = None;
        while let Some(key) = map.next_key::<String>()? {
            if key == "a" {
                a = Some(map.next_value()?);
            } else if key == "c" {
                c = Some(map.next_value()?);
            } else {
                return Err(M::Error::unknown_field("other", &["a", "c"]));
            }
        }
        let a = a.ok_or_else(|| M::Error::missing_field("a"))?;
        let c = c.ok_or_else(|| M::Error::missing_field("c"))?;
        Ok(Stranger { a, c })
    }
}

impl<'de> Deserialize<'de> for Stranger {
    fn deserialize<D: Deserializer<'de>>(deserializer: D) -> Result<Stranger, D::Error> {
        deserializer.deserialize_struct("Stranger", &["a", "c"], StrangerVisitor)
    }
}

fn named(record: impl Serialize) -> Result<Vec<(String, Value)>, serde_rusqlite::Error> {
    let slice = serde_rusqlite::to_params_named(record)?;
    let mut params = Vec::new();
    for (name, value) in slice.iter() {
        let value = match value.to_sql()? {
            ToSqlOutput::Borrowed(borrowed) => {
                Value::try_from(borrowed).map_err(rusqlite::Error::from)?
            }
            ToSqlOutput::Owned(owned) => owned,
            _ => unreachable!(),
        };
        params.push((name.clone(), value));
    }
    Ok(params)
}

fn items() -> Table {
    Table::new("items", "a TEXT PRIMARY KEY, b INTEGER NOT NULL")
}

fn item(a: &str, b: i64) -> Item {
    Item { a: a.to_string(), b }
}

fn count(conn: &Connection, table: &str) -> i64 {
    conn.query_row(&format!("SELECT count(*) FROM {table}"), (), |row| row.get(0)).unwrap()
}

fn put(session: &mut Session, record: &Item, policy: InsertConflictResolution) -> bool {
    items().insert(session, named(record), &["a", "b"], policy).unwrap()
}

fn all(session: &mut Session) -> Vec<Item> {
    items().query(session, "ORDER BY a", vec![], serde_rusqlite::from_row::<Item>).unwrap()
}

#[test]
fn fresh_database_has_no_tables() {
    let conn = Connection::open_in_memory().unwrap();
    let mut session = Session::new(&conn);
    let found = tables(&mut session).unwrap();
    assert!(!found.contains("t1"));
    assert!(!found.contains("t2"));
}

#[test]
fn created_tables_are_in_the_catalog() {
    let conn = Connection::open_in_memory().unwrap();
    let mut session = Session::new(&conn);
    let before = tables(&mut session).unwrap();
    Table::new("t1", "a TEXT").create(&mut session, &before, false).unwrap();
    Table::new("t2", "b INTEGER").create(&mut session, &before, false).unwrap();
    let found = tables(&mut session).unwrap();
    assert!(found.contains("t1"));
    assert!(found.contains("t2"));
    assert!(!found.contains("t3"));
}

#[test]
fn catalog_leaves_out_views_and_indexes() {
    let conn = Connection::open_in_memory().unwrap();
    conn.execute("CREATE TABLE t1 (a TEXT)", ()).unwrap();
    conn.execute("CREATE VIEW v1 AS SELECT a FROM t1", ()).unwrap();
    conn.execute("CREATE INDEX i1 ON t1 (a)", ()).unwrap();
    let mut session = Session::new(&conn);
    let found = tables(&mut session).unwrap();
    assert!(found.contains("t1"));
    assert!(!found.contains("v1"));
    assert!(!found.contains("i1"));
}

#[test]
fn catalog_is_read_afresh() {
    let conn = Connection::open_in_memory().unwrap();
    let mut session = Session::new(&conn);
    let before = tables(&mut session).unwrap();
    items().create(&mut session, &before, false).unwrap();
    assert!(!before.contains("items"));
    assert!(tables(&mut session).unwrap().contains("items"));
}

#[test]
fn create_without_force_keeps_rows() {
    let conn = Connection::open_in_memory().unwrap();
    let mut session = Session::new(&conn);
    let before = tables(&mut session).unwrap();
    items().create(&mut session, &before, false).unwrap();
    put(&mut session, &item("x", 1), InsertConflictResolution::Plain);
    put(&mut session, &item("y", 2), InsertConflictResolution::Plain);
    let present = tables(&mut session).unwrap();
    items().create(&mut session, &present, false).unwrap();
    assert_eq!(count(&conn, "items"), 2);
    items().create(&mut session, &present, false).unwrap();
    assert_eq!(count(&conn, "items"), 2);
    assert_eq!(all(&mut session), vec![item("x", 1), item("y", 2)]);
}

#[test]
fn create_with_force_empties_table() {
    let conn = Connection::open_in_memory().unwrap();
    let mut session = Session::new(&conn);
    let before = tables(&mut session).unwrap();
    items().create(&mut session, &before, false).unwrap();
    put(&mut session, &item("x", 1), InsertConflictResolution::Plain);
    put(&mut session, &item("y", 2), InsertConflictResolution::Plain);
    put(&mut session, &item("z", 3), InsertConflictResolution::Plain);
    assert_eq!(count(&conn, "items"), 3);
    let present = tables(&mut session).unwrap();
    items().create(&mut session, &present, true).unwrap();
    assert_eq!(count(&conn, "items"), 0);
    assert!(tables(&mut session).unwrap().contains("items"));
}

#[test]
fn create_with_force_on_absent_table_creates_it() {
    let conn = Connection::open_in_memory().unwrap();
    let mut session = Session::new(&conn);
    let before = tables(&mut session).unwrap();
    items().create(&mut session, &before, true).unwrap();
    assert!(tables(&mut session).unwrap().contains("items"));
}

#[test]
fn create_on_stale_catalog_fails() {
    let conn = Connection::open_in_memory().unwrap();
    let mut session = Session::new(&conn);
    let before = tables(&mut session).unwrap();
    items().create(&mut session, &before, false).unwrap();
    let again = items().create(&mut session, &before, false);
    assert!(matches!(again, Err(RusqliteHelperError::SQLite(_))));
}

#[test]
fn create_with_malformed_definition_fails() {
    let conn = Connection::open_in_memory().unwrap();
    let mut session = Session::new(&conn);
    let before = tables(&mut session).unwrap();
    let done = Table::new("broken", "a TEXT,, )").create(&mut session, &before, false);
    assert!(matches!(done, Err(RusqliteHelperError::SQLite(_))));
    assert!(!tables(&mut session).unwrap().contains("broken"));
}

#[test]
fn failed_recreation_leaves_table_dropped() {
    let conn = Connection::open_in_memory().unwrap();
    conn.execute("CREATE TABLE broken (a TEXT)", ()).unwrap();
    let mut session = Session::new(&conn);
    let present = tables(&mut session).unwrap();
    let done = Table::new("broken", "a TEXT,, )").create(&mut session, &present, true);
    assert!(matches!(done, Err(RusqliteHelperError::SQLite(_))));
    assert!(!tables(&mut session).unwrap().contains("broken"));
}

#[test]
fn insert_then_query_round_trip() {
    let conn = Connection::open_in_memory().unwrap();
    let mut session = Session::new(&conn);
    let before = tables(&mut session).unwrap();
    items().create(&mut session, &before, false).unwrap();
    let record = item("x", 5);
    let written = items()
        .insert(&mut session, named(&record), &["a", "b"], InsertConflictResolution::Plain)
        .unwrap();
    assert!(written);
    let found: Vec<Item> =
        items().query(&mut session, "", vec![], serde_rusqlite::from_row::<Item>).unwrap();
    assert_eq!(found, vec![record]);
}

#[test]
fn insert_ignore_keeps_first_row() {
    let conn = Connection::open_in_memory().unwrap();
    let mut session = Session::new(&conn);
    let before = tables(&mut session).unwrap();
    items().create(&mut session, &before, false).unwrap();
    assert!(put(&mut session, &item("k", 1), InsertConflictResolution::Ignore));
    assert!(!put(&mut session, &item("k", 2), InsertConflictResolution::Ignore));
    assert_eq!(all(&mut session), vec![item("k", 1)]);
}

#[test]
fn insert_replace_keeps_second_row() {
    let conn = Connection::open_in_memory().unwrap();
    let mut session = Session::new(&conn);
    let before = tables(&mut session).unwrap();
    items().create(&mut session, &before, false).unwrap();
    assert!(put(&mut session, &item("k", 1), InsertConflictResolution::Replace));
    assert!(put(&mut session, &item("k", 2), InsertConflictResolution::Replace));
    assert_eq!(all(&mut session), vec![item("k", 2)]);
}

#[test]
fn insert_plain_fails_on_duplicate_key() {
    let conn = Connection::open_in_memory().unwrap();
    let mut session = Session::new(&conn);
    let before = tables(&mut session).unwrap();
    items().create(&mut session, &before, false).unwrap();
    assert!(put(&mut session, &item("k", 1), InsertConflictResolution::Plain));
    let second = items().insert(
        &mut session,
        named(item("k", 2)),
        &["a", "b"],
        InsertConflictResolution::Plain,
    );
    assert!(matches!(second, Err(RusqliteHelperError::SQLite(_))));
    assert_eq!(all(&mut session), vec![item("k", 1)]);
}

#[test]
fn insert_abort_fails_on_duplicate_key() {
    let conn = Connection::open_in_memory().unwrap();
    let mut session = Session::new(&conn);
    let before = tables(&mut session).unwrap();
    items().create(&mut session, &before, false).unwrap();
    assert!(put(&mut session, &item("k", 1), InsertConflictResolution::Abort));
    let second = items().insert(
        &mut session,
        named(item("k", 2)),
        &["a", "b"],
        InsertConflictResolution::Abort,
    );
    assert!(matches!(second, Err(RusqliteHelperError::SQLite(_))));
    assert_eq!(all(&mut session), vec![item("k", 1)]);
}

#[test]
fn insert_upsert_runs_callers_clause() {
    let conn = Connection::open_in_memory().unwrap();
    let mut session = Session::new(&conn);
    let before = tables(&mut session).unwrap();
    items().create(&mut session, &before, false).unwrap();
    let policy =
        InsertConflictResolution::Upsert("ON CONFLICT(a) DO UPDATE SET b = b + excluded.b");
    assert!(put(&mut session, &item("k", 1), policy.clone()));
    assert!(put(&mut session, &item("k", 10), policy));
    assert_eq!(all(&mut session), vec![item("k", 11)]);
}

#[test]
fn insert_of_unserializable_record_fails() {
    let conn = Connection::open_in_memory().unwrap();
    let mut session = Session::new(&conn);
    let before = tables(&mut session).unwrap();
    items().create(&mut session, &before, false).unwrap();
    let written =
        items().insert(&mut session, named(5_i64), &["a", "b"], InsertConflictResolution::Plain);
    assert!(matches!(written, Err(RusqliteHelperError::Serialization(_))));
    assert_eq!(count(&conn, "items"), 0);
}

#[test]
fn insert_with_field_missing_from_list_fails() {
    let conn = Connection::open_in_memory().unwrap();
    let mut session = Session::new(&conn);
    let before = tables(&mut session).unwrap();
    items().create(&mut session, &before, false).unwrap();
    let written = items().insert(
        &mut session,
        named(item("x", 5)),
        &["a"],
        InsertConflictResolution::Plain,
    );
    match written {
        Err(RusqliteHelperError::Serialization(serde_rusqlite::Error::Serialization(text))) => {
            assert_eq!(text, "the record and the list of fields do not agree")
        }
        other => panic!("{other:?}"),
    }
    assert_eq!(count(&conn, "items"), 0);
}

#[test]
fn insert_with_field_missing_from_record_fails() {
    let conn = Connection::open_in_memory().unwrap();
    conn.execute("CREATE TABLE wide (a TEXT, b INTEGER, c INTEGER)", ()).unwrap();
    let mut session = Session::new(&conn);
    let written = Table::new("wide", "a TEXT, b INTEGER, c INTEGER").insert(
        &mut session,
        named(item("x", 5)),
        &["a", "b", "c"],
        InsertConflictResolution::Plain,
    );
    assert!(matches!(written, Err(RusqliteHelperError::Serialization(_))));
    assert_eq!(count(&conn, "wide"), 0);
}

#[test]
fn insert_takes_fields_in_any_order() {
    let conn = Connection::open_in_memory().unwrap();
    let mut session = Session::new(&conn);
    let before = tables(&mut session).unwrap();
    items().create(&mut session, &before, false).unwrap();
    let written = items()
        .insert(&mut session, named(item("x", 5)), &["b", "a"], InsertConflictResolution::Plain)
        .unwrap();
    assert!(written);
    assert_eq!(all(&mut session), vec![item("x", 5)]);
}

#[test]
fn insert_into_absent_table_fails() {
    let conn = Connection::open_in_memory().unwrap();
    let mut session = Session::new(&conn);
    let written = items().insert(
        &mut session,
        named(item("x", 5)),
        &["a", "b"],
        InsertConflictResolution::Plain,
    );
    assert!(matches!(written, Err(RusqliteHelperError::SQLite(_))));
}

#[test]
fn query_without_match_is_empty() {
    let conn = Connection::open_in_memory().unwrap();
    let mut session = Session::new(&conn);
    let before = tables(&mut session).unwrap();
    items().create(&mut session, &before, false).unwrap();
    put(&mut session, &item("x", 5), InsertConflictResolution::Plain);
    let found: Vec<Item> = items()
        .query(
            &mut session,
            "WHERE a = ?",
            vec![Value::Text("nobody".to_string())],
            serde_rusqlite::from_row::<Item>,
        )
        .unwrap();
    assert!(found.is_empty());
}

#[test]
fn query_binds_parameters_by_position() {
    let conn = Connection::open_in_memory().unwrap();
    let mut session = Session::new(&conn);
    let before = tables(&mut session).unwrap();
    items().create(&mut session, &before, false).unwrap();
    put(&mut session, &item("x", 1), InsertConflictResolution::Plain);
    put(&mut session, &item("y", 2), InsertConflictResolution::Plain);
    put(&mut session, &item("z", 3), InsertConflictResolution::Plain);
    let found: Vec<Item> = items()
        .query(
            &mut session,
            "WHERE b > ? AND a <> ?",
            vec![Value::Integer(1), Value::Text("z".to_string())],
            serde_rusqlite::from_row::<Item>,
        )
        .unwrap();
    assert_eq!(found, vec![item("y", 2)]);
}

#[test]
fn query_keeps_engine_order() {
    let conn = Connection::open_in_memory().unwrap();
    let mut session = Session::new(&conn);
    let before = tables(&mut session).unwrap();
    items().create(&mut session, &before, false).unwrap();
    put(&mut session, &item("x", 2), InsertConflictResolution::Plain);
    put(&mut session, &item("y", 3), InsertConflictResolution::Plain);
    put(&mut session, &item("z", 1), InsertConflictResolution::Plain);
    let found: Vec<Item> = items()
        .query(&mut session, "ORDER BY b DESC", vec![], serde_rusqlite::from_row::<Item>)
        .unwrap();
    assert_eq!(found, vec![item("y", 3), item("x", 2), item("z", 1)]);
}

#[test]
fn query_into_mismatched_record_is_serialization_error() {
    let conn = Connection::open_in_memory().unwrap();
    let mut session = Session::new(&conn);
    let before = tables(&mut session).unwrap();
    items().create(&mut session, &before, false).unwrap();
    put(&mut session, &item("x", 5), InsertConflictResolution::Plain);
    let found =
        items().query(&mut session, "", vec![], serde_rusqlite::from_row::<Stranger>);
    assert!(matches!(found, Err(RusqliteHelperError::Serialization(_))));
}

#[test]
fn query_into_mismatched_record_of_empty_table_is_empty() {
    let conn = Connection::open_in_memory().unwrap();
    let mut session = Session::new(&conn);
    let before = tables(&mut session).unwrap();
    items().create(&mut session, &before, false).unwrap();
    let found =
        items().query(&mut session, "", vec![], serde_rusqlite::from_row::<Stranger>).unwrap();
    assert!(found.is_empty());
}

#[test]
fn query_with_one_bad_row_returns_no_rows() {
    let conn = Connection::open_in_memory().unwrap();
    conn.execute("CREATE TABLE loose (a TEXT, b)", ()).unwrap();
    conn.execute("INSERT INTO loose VALUES ('x', 1), ('y', 'two'), ('z', 3)", ()).unwrap();
    let mut session = Session::new(&conn);
    let found = Table::new("loose", "a TEXT, b").query(
        &mut session,
        "ORDER BY a",
        vec![],
        serde_rusqlite::from_row::<Item>,
    );
    assert!(matches!(found, Err(RusqliteHelperError::Serialization(_))));
}

#[test]
fn query_with_malformed_predicate_is_engine_error() {
    let conn = Connection::open_in_memory().unwrap();
    let mut session = Session::new(&conn);
    let before = tables(&mut session).unwrap();
    items().create(&mut session, &before, false).unwrap();
    let found =
        items().query(&mut session, "WHERE WHERE", vec![], serde_rusqlite::from_row::<Item>);
    assert!(matches!(found, Err(RusqliteHelperError::SQLite(_))));
}

#[test]
fn query_with_wrong_parameter_count_is_engine_error() {
    let conn = Connection::open_in_memory().unwrap();
    let mut session = Session::new(&conn);
    let before = tables(&mut session).unwrap();
    items().create(&mut session, &before, false).unwrap();
    let found = items().query(
        &mut session,
        "WHERE a = ?",
        vec![Value::Integer(1), Value::Integer(2)],
        serde_rusqlite::from_row::<Item>,
    );
    assert!(matches!(found, Err(RusqliteHelperError::SQLite(_))));
}

#[test]
fn query_broken_off_by_engine_is_engine_error() {
    let conn = Connection::open_in_memory().unwrap();
    let mut session = Session::new(&conn);
    let before = tables(&mut session).unwrap();
    items().create(&mut session, &before, false).unwrap();
    put(&mut session, &item("x", 1), InsertConflictResolution::Plain);
    put(&mut session, &item("y", 5), InsertConflictResolution::Plain);
    let found = items().query(
        &mut session,
        "WHERE abs(b - 9223372036854775807 - 6) > 0 ORDER BY a",
        vec![],
        serde_rusqlite::from_row::<Item>,
    );
    assert!(matches!(found, Err(RusqliteHelperError::SQLite(_))));
}

#[test]
fn query_with_own_decoder() {
    let conn = Connection::open_in_memory().unwrap();
    let mut session = Session::new(&conn);
    let before = tables(&mut session).unwrap();
    items().create(&mut session, &before, false).unwrap();
    put(&mut session, &item("x", 5), InsertConflictResolution::Plain);
    let found: Vec<i64> = items()
        .query(&mut session, "", vec![], |row: &Row<'_>| Ok(row.get::<_, i64>(1)? * 2))
        .unwrap();
    assert_eq!(found, vec![10]);
}
