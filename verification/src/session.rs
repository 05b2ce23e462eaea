//! A connection, and the record of what was exchanged over it.
//!
//! A `rusqlite::Connection` is used through a shared reference, so nothing
//! that a statement does to the database can be stated of the connection
//! itself. A [`Session`] keeps, for the proofs only, the list of statements
//! that were handed to the engine through it, with the values bound to them
//! and with what the engine answered. The contracts of this crate say what
//! a call adds to that list, and how its result follows from the answers.
//!
//! The functions that talk to the engine are private to this module. Each
//! is called by one method of [`Session`], which records the exchange. What
//! goes to the engine by other ways, through the connection itself, is not
//! in the record.

use vstd::prelude::*;
use crate::catalog::CatalogEntry;

verus! {

/// `rusqlite::Connection`, an open database.
#[verifier::external_type_specification]
#[verifier::external_body]
pub struct ExConnection(rusqlite::Connection);

/// `rusqlite::Row`, the current row of a running query.
#[verifier::external_type_specification]
#[verifier::external_body]
pub struct ExRow<'stmt>(rusqlite::Row<'stmt>);

/// `rusqlite::types::Value`, a value that the engine can store. Nothing is
/// known of what it holds.
#[verifier::external_type_specification]
#[verifier::external_body]
pub struct ExValue(rusqlite::types::Value);

/// The values that go with a statement's text.
pub enum Binding {
    /// The statement has no placeholders filled in.
    Nothing,
    /// One value for each placeholder, in the order of the placeholders.
    Positional(Seq<rusqlite::types::Value>),
    /// Each value under the name of its placeholder.
    Named(Seq<(String, rusqlite::types::Value)>),
}

/// What the engine answered to a statement.
pub enum Reply {
    /// The statement was not carried out; the engine's error says why.
    Refused(rusqlite::Error),
    /// The statement was carried out and changed this many rows.
    Changed(nat),
    /// The query was carried out and produced this many rows. Then it came
    /// to its end (`None`), or the engine broke it off with an error.
    Rows(nat, Option<rusqlite::Error>),
    /// The catalog was read and lists these entries.
    Catalog(Seq<CatalogEntry>),
}

/// One statement handed to the engine, and the engine's answer.
pub struct Exchange {
    /// The text of the statement.
    pub statement: Seq<char>,
    /// The values that went with it.
    pub binding: Binding,
    /// What the engine answered.
    pub reply: Reply,
}

/// The answer that stands for the outcome of a statement run for its effect.
pub open spec fn effect(outcome: Result<usize, rusqlite::Error>) -> Reply {
    match outcome {
        Ok(changed) => Reply::Changed(changed as nat),
        Err(cause) => Reply::Refused(cause),
    }
}

/// The answer that stands for the outcome of a query.
pub open spec fn produced<R>(
    outcome: Result<(Vec<R>, Option<rusqlite::Error>), rusqlite::Error>,
) -> Reply {
    match outcome {
        Ok(fetched) => Reply::Rows(fetched.0@.len(), fetched.1),
        Err(cause) => Reply::Refused(cause),
    }
}

/// `item` is what `decode` makes of some row.
pub open spec fn decoded_by<R, F: Fn(&rusqlite::Row<'_>) -> Result<R, serde_rusqlite::Error>>(
    decode: F,
    item: Result<R, serde_rusqlite::Error>,
) -> bool {
    exists|row: &rusqlite::Row<'_>| decode.ensures((row,), item)
}

/// `sent` is what is exchanged when the statements of `plan` are run in
/// order, none with values bound, and nothing more is run once the engine
/// has refused one.
pub open spec fn carried_out(plan: Seq<Seq<char>>, sent: Seq<Exchange>) -> bool {
    &&& sent.len() <= plan.len()
    &&& forall|i: int|
        0 <= i < sent.len() ==> {
            &&& (#[trigger] sent[i]).statement == plan[i]
            &&& sent[i].binding == Binding::Nothing
            &&& sent[i].reply is Changed || sent[i].reply is Refused
        }
    &&& forall|i: int| 0 <= i < sent.len() - 1 ==> (#[trigger] sent[i]).reply is Changed
    &&& sent.len() < plan.len() ==> sent.len() > 0 && sent.last().reply is Refused
}

/// The error with which the engine refused the last statement of `sent`,
/// if it refused it.
pub open spec fn refusal(sent: Seq<Exchange>) -> Option<rusqlite::Error> {
    if sent.len() > 0 && sent.last().reply is Refused {
        Some(sent.last().reply->Refused_0)
    } else {
        None
    }
}

/// The answer that stands for the outcome of reading the catalog.
pub open spec fn listed(outcome: Result<Vec<CatalogEntry>, rusqlite::Error>) -> Reply {
    match outcome {
        Ok(entries) => Reply::Catalog(entries@),
        Err(cause) => Reply::Refused(cause),
    }
}

/// `Connection::execute` without parameters: prepares `sql` and runs it once.
/// The count of changed rows and the error are the engine's; nothing is
/// claimed of either.
#[verifier::external_body]
fn run(conn: &rusqlite::Connection, sql: &str) -> (outcome: Result<usize, rusqlite::Error>) {
    conn.execute(sql, ())
}

/// `Connection::execute` with named parameters: prepares `sql`, binds each
/// value of `params` to the placeholder of its name and runs the statement
/// once. Nothing is claimed of the outcome.
#[verifier::external_body]
fn run_named(
    conn: &rusqlite::Connection,
    sql: &str,
    params: &Vec<(String, rusqlite::types::Value)>,
) -> (outcome: Result<usize, rusqlite::Error>) {
    let mut named: Vec<(&str, &dyn rusqlite::ToSql)> = Vec::new();
    for param in params.iter() {
        named.push((param.0.as_str(), &param.1));
    }
    conn.execute(sql, named.as_slice())
}

/// `Connection::prepare`, `Statement::query` and `Rows::next`: prepares
/// `sql`, binds `params` by position and steps through the rows, handing
/// each to `decode`. The first part of the outcome holds what `decode` made
/// of each row, in the engine's order; the second the error with which
/// `Rows::next` broke off, if it did. The outcome is an error where
/// preparing or binding fails. Of the rows themselves nothing is claimed.
#[verifier::external_body]
fn fetch<R, F>(
    conn: &rusqlite::Connection,
    sql: &str,
    params: Vec<rusqlite::types::Value>,
    decode: &F,
) -> (outcome: Result<
    (Vec<Result<R, serde_rusqlite::Error>>, Option<rusqlite::Error>),
    rusqlite::Error,
>) where F: Fn(&rusqlite::Row<'_>) -> Result<R, serde_rusqlite::Error>
    requires
        forall|row: &rusqlite::Row<'_>| decode.requires((row,)),
    ensures
        outcome matches Ok(fetched) ==> forall|i: int|
            0 <= i < fetched.0@.len() ==> decoded_by(*decode, #[trigger] fetched.0@[i]),
{
    let mut stmt = conn.prepare(sql)?;
    let mut rows = stmt.query(rusqlite::params_from_iter(params))?;
    let mut items = Vec::new();
    loop {
        match rows.next() {
            Ok(Some(row)) => items.push(decode(row)),
            Ok(None) => return Ok((items, None)),
            Err(cause) => return Ok((items, Some(cause))),
        }
    }
}

/// `Connection::pragma_query` with the pragma `table_list`: the name and
/// the kind of each catalog entry (columns 1 and 2 of the pragma's rows),
/// in the engine's order. Nothing is claimed of the outcome.
#[verifier::external_body]
fn table_list(conn: &rusqlite::Connection) -> (outcome: Result<
    Vec<CatalogEntry>,
    rusqlite::Error,
>) {
    let mut entries = Vec::new();
    conn.pragma_query(None, "table_list", |row| {
        entries.push(CatalogEntry { name: row.get(1)?, kind: row.get(2)? });
        Ok(())
    })?;
    Ok(entries)
}

/// A connection together with the record of what was exchanged over it
/// through this session.
pub struct Session<'c> {
    conn: &'c rusqlite::Connection,
    sent: Ghost<Seq<Exchange>>,
}

impl<'c> Session<'c> {
    /// The exchanges made through this session, oldest first.
    pub closed spec fn history(&self) -> Seq<Exchange> {
        self.sent@
    }

    /// What this session has exchanged since it was `before`.
    pub open spec fn since(&self, before: &Session<'c>) -> Seq<Exchange> {
        self.history().skip(before.history().len() as int)
    }

    /// This session is `before` with `since(before)` added at the end.
    pub open spec fn continues(&self, before: &Session<'c>) -> bool {
        before.history().is_prefix_of(self.history())
    }

    /// Starts a session on `conn`. Nothing has been exchanged yet.
    pub fn new(conn: &'c rusqlite::Connection) -> (session: Self)
        ensures
            session.history() == Seq::<Exchange>::empty(),
    {
        Session { conn, sent: Ghost(Seq::empty()) }
    }

    /// Runs `sql`, which has no placeholders, for its effect.
    pub(crate) fn execute(&mut self, sql: &str) -> (outcome: Result<usize, rusqlite::Error>)
        ensures
            final(self).history() == old(self).history().push(
                (Exchange { statement: sql@, binding: Binding::Nothing, reply: effect(outcome) }),
            ),
    {
        let outcome = run(self.conn, sql);
        proof {
            self.sent@ = self.sent@.push(
                Exchange { statement: sql@, binding: Binding::Nothing, reply: effect(outcome) },
            );
        }
        outcome
    }

    /// Runs `sql` for its effect, with each value of `params` bound to the
    /// placeholder of its name.
    pub(crate) fn execute_named(
        &mut self,
        sql: &str,
        params: &Vec<(String, rusqlite::types::Value)>,
    ) -> (outcome: Result<usize, rusqlite::Error>)
        ensures
            final(self).history() == old(self).history().push(
                (Exchange {
                    statement: sql@,
                    binding: Binding::Named(params@),
                    reply: effect(outcome),
                }),
            ),
    {
        let outcome = run_named(self.conn, sql, params);
        proof {
            self.sent@ = self.sent@.push(
                Exchange {
                    statement: sql@,
                    binding: Binding::Named(params@),
                    reply: effect(outcome),
                },
            );
        }
        outcome
    }

    /// Runs the query `sql` with `params` bound by position. Hands back what
    /// `decode` made of each row, in the engine's order, and the error with
    /// which the engine broke the query off, if it did.
    pub(crate) fn select<R, F>(
        &mut self,
        sql: &str,
        params: Vec<rusqlite::types::Value>,
        decode: &F,
    ) -> (outcome: Result<
        (Vec<Result<R, serde_rusqlite::Error>>, Option<rusqlite::Error>),
        rusqlite::Error,
    >) where F: Fn(&rusqlite::Row<'_>) -> Result<R, serde_rusqlite::Error>
        requires
            forall|row: &rusqlite::Row<'_>| decode.requires((row,)),
        ensures
            final(self).history() == old(self).history().push(
                (Exchange {
                    statement: sql@,
                    binding: Binding::Positional(params@),
                    reply: produced(outcome),
                }),
            ),
            outcome matches Ok(fetched) ==> forall|i: int|
                0 <= i < fetched.0@.len() ==> decoded_by(*decode, #[trigger] fetched.0@[i]),
    {
        let ghost bound = params@;
        let outcome = fetch(self.conn, sql, params, decode);
        proof {
            self.sent@ = self.sent@.push(
                Exchange {
                    statement: sql@,
                    binding: Binding::Positional(bound),
                    reply: produced(outcome),
                },
            );
        }
        outcome
    }

    /// Reads the catalog: the name and the kind of every entry. The record
    /// shows the request as the statement that `rusqlite` words for it.
    pub(crate) fn catalog(&mut self) -> (outcome: Result<Vec<CatalogEntry>, rusqlite::Error>)
        ensures
            final(self).history() == old(self).history().push(
                (Exchange {
                    statement: "PRAGMA table_list"@,
                    binding: Binding::Nothing,
                    reply: listed(outcome),
                }),
            ),
    {
        let outcome = table_list(self.conn);
        proof {
            self.sent@ = self.sent@.push(
                Exchange {
                    statement: "PRAGMA table_list"@,
                    binding: Binding::Nothing,
                    reply: listed(outcome),
                },
            );
        }
        outcome
    }
}

} // verus!
