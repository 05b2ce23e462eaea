//! Tables: creating them, writing records into them and reading records
//! back.
//!
//! The name of a table, its column definitions, the field names and the
//! fragments that callers supply are written into the statements as they
//! are. They must come from the program's own text, never from its users.

use vstd::prelude::*;
use vstd::hash_set::StringHashSet;
use vstd::string::StringExecFns;
use crate::error::{serialization_failure, RusqliteHelperError};
use crate::fields::{agree, check_agreement};
use crate::rows::{gather, settles};
use crate::session::{carried_out, decoded_by, refusal, Binding, Exchange, Reply, Session};
use crate::sql::{join, joined, texts};

verus! {

/// A table's name and its column definitions.
pub struct Table {
    pub name: String,
    pub def: String,
}

/// What an insert does where the new row collides with one that is there.
#[derive(Clone, Copy)]
pub enum InsertConflictResolution<'a> {
    /// A plain insert: it fails.
    Plain,
    /// The new row is dropped and the old one stays.
    Ignore,
    /// The statement is aborted.
    Abort,
    /// The new row takes the place of the old one.
    Replace,
    /// The clause that follows is added to the statement as it is.
    Upsert(&'a str),
}

impl Default for InsertConflictResolution<'_> {
    fn default() -> (policy: Self)
        ensures
            policy is Plain,
    {
        InsertConflictResolution::Plain
    }
}

impl InsertConflictResolution<'_> {
    /// The words with which the insert statement begins.
    pub open spec fn opening(self) -> Seq<char> {
        match self {
            InsertConflictResolution::Plain => "INSERT INTO "@,
            InsertConflictResolution::Ignore => "INSERT OR IGNORE INTO "@,
            InsertConflictResolution::Abort => "INSERT OR ABORT INTO "@,
            InsertConflictResolution::Replace => "INSERT OR REPLACE INTO "@,
            InsertConflictResolution::Upsert(_) => "INSERT INTO "@,
        }
    }

    /// What follows the list of values in the insert statement.
    pub open spec fn closing(self) -> Seq<char> {
        match self {
            InsertConflictResolution::Upsert(clause) => " "@ + clause@,
            _ => Seq::empty(),
        }
    }
}

impl Table {
    /// Describes the table `name` whose columns are declared by `def`.
    /// Nothing is read or written.
    pub fn new(name: &str, def: &str) -> (table: Table)
        ensures
            table.name@ == name@,
            table.def@ == def@,
    {
        Table { name: String::from_str(name), def: String::from_str(def) }
    }

    /// The text of the statement that drops the table.
    pub open spec fn drop_sql(&self) -> Seq<char> {
        "DROP TABLE "@ + self.name@ + ";"@
    }

    /// The text of the statement that creates the table.
    pub open spec fn create_sql(&self) -> Seq<char> {
        "CREATE TABLE "@ + self.name@ + " ("@ + self.def@ + ")"@
    }

    /// The text of the statement that inserts one row with the columns
    /// `fields`, each value under the placeholder of its field.
    pub open spec fn insert_sql(
        &self,
        fields: Seq<Seq<char>>,
        conflict: InsertConflictResolution<'_>,
    ) -> Seq<char> {
        conflict.opening() + self.name@ + " ("@ + joined(fields, ","@) + ") VALUES (:"@ + joined(
            fields,
            ", :"@,
        ) + ")"@ + conflict.closing()
    }

    /// The text of the query for the rows that `tail` selects.
    pub open spec fn select_sql(&self, tail: Seq<char>) -> Seq<char> {
        "SELECT * FROM "@ + self.name@ + " "@ + tail + ";"@
    }

    /// The statements that bring the table about, given whether a table of
    /// this name is `present` and whether the caller will `force` a new one.
    pub open spec fn creation_plan(&self, present: bool, force: bool) -> Seq<Seq<char>> {
        if !present {
            seq![self.create_sql()]
        } else if force {
            seq![self.drop_sql(), self.create_sql()]
        } else {
            Seq::empty()
        }
    }

    /// Writes the statement that drops the table.
    pub fn drop_statement(&self) -> (sql: String)
        ensures
            sql@ == self.drop_sql(),
    {
        let mut sql = String::from_str("DROP TABLE ");
        sql.append(self.name.as_str());
        sql.append(";");
        sql
    }

    /// Writes the statement that creates the table.
    pub fn create_statement(&self) -> (sql: String)
        ensures
            sql@ == self.create_sql(),
    {
        let mut sql = String::from_str("CREATE TABLE ");
        sql.append(self.name.as_str());
        sql.append(" (");
        sql.append(self.def.as_str());
        sql.append(")");
        sql
    }

    /// Writes the statement that inserts one row with the columns `fields`.
    pub fn insert_statement(
        &self,
        fields: &[&str],
        conflict: &InsertConflictResolution<'_>,
    ) -> (sql: String)
        ensures
            sql@ == self.insert_sql(texts(fields@), *conflict),
    {
        let mut sql = match conflict {
            InsertConflictResolution::Plain => String::from_str("INSERT INTO "),
            InsertConflictResolution::Ignore => String::from_str("INSERT OR IGNORE INTO "),
            InsertConflictResolution::Abort => String::from_str("INSERT OR ABORT INTO "),
            InsertConflictResolution::Replace => String::from_str("INSERT OR REPLACE INTO "),
            InsertConflictResolution::Upsert(_) => String::from_str("INSERT INTO "),
        };
        let columns = join(fields, ",");
        let values = join(fields, ", :");
        sql.append(self.name.as_str());
        sql.append(" (");
        sql.append(columns.as_str());
        sql.append(") VALUES (:");
        sql.append(values.as_str());
        sql.append(")");
        match conflict {
            InsertConflictResolution::Upsert(clause) => {
                sql.append(" ");
                sql.append(clause);
            },
            _ => {},
        }
        sql
    }

    /// Writes the query for the rows that `where_stmt` selects.
    pub fn select_statement(&self, where_stmt: &str) -> (sql: String)
        ensures
            sql@ == self.select_sql(where_stmt@),
    {
        let mut sql = String::from_str("SELECT * FROM ");
        sql.append(self.name.as_str());
        sql.append(" ");
        sql.append(where_stmt);
        sql.append(";");
        sql
    }

    /// Brings the table about in the database of `session`.
    ///
    /// `tables` says which tables the database holds. Where the table is
    /// among them and `force` is unset, nothing is done. Where it is among
    /// them and `force` is set, the table is dropped, with all its rows, and
    /// created anew. Where it is not among them, it is created.
    ///
    /// The call fails with the engine's error where the engine refuses a
    /// statement. Dropping and creating are two statements, and no
    /// transaction joins them: where creating fails after dropping has
    /// succeeded, the table is gone.
    pub fn create(
        &self,
        session: &mut Session<'_>,
        tables: &StringHashSet,
        force: bool,
    ) -> (done: Result<(), RusqliteHelperError>)
        ensures
            final(session).continues(old(session)),
            carried_out(
                self.creation_plan(tables@.contains(self.name@), force),
                final(session).since(old(session)),
            ),
            done == match refusal(final(session).since(old(session))) {
                Some(cause) => Err::<(), _>(RusqliteHelperError::SQLite(cause)),
                None => Ok::<(), RusqliteHelperError>(()),
            },
    {
        let exists = tables.contains(self.name.as_str());
        if exists && !force {
            return Ok(());
        }
        if exists {
            let sql = self.drop_statement();
            match session.execute(sql.as_str()) {
                Ok(_) => {},
                Err(cause) => {
                    return Err(RusqliteHelperError::SQLite(cause));
                },
            }
        }
        let sql = self.create_statement();
        match session.execute(sql.as_str()) {
            Ok(_) => Ok(()),
            Err(cause) => Err(RusqliteHelperError::SQLite(cause)),
        }
    }

    /// Writes one row into the table.
    ///
    /// `row` is what the serialization layer made of the record: each value
    /// under the placeholder of its field, which is the field's name behind
    /// a colon, or the layer's error. `fields` lists the columns to write.
    /// `conflict` says what happens where the new row collides with one that
    /// is there.
    ///
    /// One statement is run, once. The result is `true` where it changed at
    /// least one row: `false` comes only where the engine left the row out,
    /// as it does under `Ignore` on a collision.
    ///
    /// The call fails as a serialization failure, and nothing is run, where
    /// `row` is an error, with that error, or where `row` and `fields` do
    /// not agree. It fails with the engine's error where the engine refuses
    /// the statement.
    pub fn insert(
        &self,
        session: &mut Session<'_>,
        row: Result<Vec<(String, rusqlite::types::Value)>, serde_rusqlite::Error>,
        fields: &[&str],
        conflict: InsertConflictResolution<'_>,
    ) -> (written: Result<bool, RusqliteHelperError>)
        ensures
            final(session).continues(old(session)),
            match row {
                Err(cause) => {
                    &&& final(session).since(old(session)).len() == 0
                    &&& written == Err::<bool, _>(RusqliteHelperError::Serialization(cause))
                },
                Ok(params) => if agree(params@, texts(fields@)) {
                    let sent = final(session).since(old(session));
                    &&& sent.len() == 1
                    &&& sent[0].statement == self.insert_sql(texts(fields@), conflict)
                    &&& sent[0].binding == Binding::Named(params@)
                    &&& match sent[0].reply {
                        Reply::Changed(count) => written == Ok::<bool, RusqliteHelperError>(
                            count != 0,
                        ),
                        Reply::Refused(cause) => written == Err::<bool, _>(
                            RusqliteHelperError::SQLite(cause),
                        ),
                        _ => false,
                    }
                } else {
                    &&& final(session).since(old(session)).len() == 0
                    &&& written matches Err(RusqliteHelperError::Serialization(_))
                },
            },
    {
        let params = match row {
            Ok(params) => params,
            Err(cause) => {
                return Err(RusqliteHelperError::Serialization(cause));
            },
        };
        if !check_agreement(&params, fields) {
            return Err(
                RusqliteHelperError::Serialization(
                    serialization_failure("the record and the list of fields do not agree"),
                ),
            );
        }
        let sql = self.insert_statement(fields, &conflict);
        match session.execute_named(sql.as_str(), &params) {
            Ok(changed) => Ok(changed != 0),
            Err(cause) => Err(RusqliteHelperError::SQLite(cause)),
        }
    }

    /// Reads the rows of the table that `where_stmt` selects, each turned
    /// into a record by `decode`, in the order in which the engine hands
    /// them out.
    ///
    /// `where_stmt` is what follows the table's name in the query; it may be
    /// empty. `params` are the values for its placeholders, by position.
    /// Where no row is selected the result is empty, not an error.
    ///
    /// The call fails with the engine's error where the engine refuses the
    /// query or breaks it off, and as a serialization failure where `decode`
    /// fails on a row. Either way no record comes back.
    pub fn query<R, F>(
        &self,
        session: &mut Session<'_>,
        where_stmt: &str,
        params: Vec<rusqlite::types::Value>,
        decode: F,
    ) -> (found: Result<Vec<R>, RusqliteHelperError>) where
        F: Fn(&rusqlite::Row<'_>) -> Result<R, serde_rusqlite::Error>,

        requires
            forall|row: &rusqlite::Row<'_>| decode.requires((row,)),
        ensures
            final(session).continues(old(session)),
            final(session).since(old(session)).len() == 1,
            final(session).since(old(session))[0].statement == self.select_sql(where_stmt@),
            final(session).since(old(session))[0].binding == Binding::Positional(params@),
            match final(session).since(old(session))[0].reply {
                Reply::Refused(cause) => found == Err::<Vec<R>, _>(
                    RusqliteHelperError::SQLite(cause),
                ),
                Reply::Rows(count, broken) => exists|items: Seq<Result<R, serde_rusqlite::Error>>|
                    {
                        &&& items.len() == count
                        &&& forall|i: int|
                            0 <= i < items.len() ==> decoded_by(decode, #[trigger] items[i])
                        &&& #[trigger] settles(items, broken, found)
                    },
                _ => false,
            },
    {
        let sql = self.select_statement(where_stmt);
        match session.select(sql.as_str(), params, &decode) {
            Ok((items, broken)) => gather(items, broken),
            Err(cause) => Err(RusqliteHelperError::SQLite(cause)),
        }
    }
}

/// Creating a table that is present, without force, sends nothing to the
/// engine and succeeds, however often it is done: no statement drops the
/// table or touches its rows.
pub proof fn lemma_create_keeps_present_table(table: Table, sent: Seq<Exchange>)
    requires
        carried_out(table.creation_plan(true, false), sent),
    ensures
        sent.len() == 0,
        refusal(sent) is None,
{
}

/// Creating a table that is present, with force, succeeds only where the
/// engine has carried out two statements: first the one that drops the
/// table, then the one that creates it.
pub proof fn lemma_forced_create_drops_first(table: Table, sent: Seq<Exchange>)
    requires
        carried_out(table.creation_plan(true, true), sent),
        refusal(sent) is None,
    ensures
        sent.len() == 2,
        sent[0].statement == table.drop_sql(),
        sent[0].reply is Changed,
        sent[1].statement == table.create_sql(),
        sent[1].reply is Changed,
{
}

} // verus!
