//! The catalog: which tables a database holds.

use vstd::prelude::*;
use vstd::hash_set::StringHashSet;
use vstd::string::StringExecFns;
use crate::error::RusqliteHelperError;
use crate::session::{Binding, Reply, Session};

verus! {

/// One entry of the engine's catalog: a table, a view, or whatever else the
/// engine lists.
pub struct CatalogEntry {
    pub name: String,
    /// What the entry is; `"table"` for a table.
    pub kind: String,
}

impl CatalogEntry {
    /// The entry is a table.
    pub open spec fn is_table(self) -> bool {
        self.kind@ == "table"@
    }
}

/// The names of the entries of `entries` that are tables.
pub open spec fn table_names_of(entries: Seq<CatalogEntry>) -> Set<Seq<char>> {
    Set::new(
        |name: Seq<char>|
            exists|i: int|
                0 <= i < entries.len() && (#[trigger] entries[i]).is_table() && entries[i].name@
                    == name,
    )
}

/// Listing one more entry adds its name to the names of the tables if the
/// entry is a table, and changes nothing if it is not.
pub proof fn lemma_table_names_push(entries: Seq<CatalogEntry>, entry: CatalogEntry)
    ensures
        table_names_of(entries.push(entry)) == if entry.is_table() {
            table_names_of(entries).insert(entry.name@)
        } else {
            table_names_of(entries)
        },
{
    let longer = entries.push(entry);
    let expected = if entry.is_table() {
        table_names_of(entries).insert(entry.name@)
    } else {
        table_names_of(entries)
    };
    assert forall|name: Seq<char>| table_names_of(longer).contains(name) implies expected.contains(
        name,
    ) by {
        let i = choose|i: int|
            0 <= i < longer.len() && (#[trigger] longer[i]).is_table() && longer[i].name@ == name;
        if i < entries.len() {
            assert(entries[i].is_table());
        }
    }
    assert forall|name: Seq<char>| expected.contains(name) implies table_names_of(longer).contains(
        name,
    ) by {
        if table_names_of(entries).contains(name) {
            let i = choose|i: int|
                0 <= i < entries.len() && (#[trigger] entries[i]).is_table() && entries[i].name@
                    == name;
            assert(longer[i].is_table());
        } else {
            assert(longer[entries.len() as int].is_table());
        }
    }
}

/// The names of the tables hold the name of every entry that is a table,
/// and no name that only entries of other kinds have.
pub proof fn lemma_table_names_complete(entries: Seq<CatalogEntry>, i: int)
    requires
        0 <= i < entries.len(),
    ensures
        entries[i].is_table() ==> table_names_of(entries).contains(entries[i].name@),
        table_names_of(entries).contains(entries[i].name@) ==> exists|j: int|
            0 <= j < entries.len() && (#[trigger] entries[j]).is_table() && entries[j].name@
                == entries[i].name@,
{
}

/// Picks out of a catalog listing the names of the tables.
pub fn table_names(entries: &Vec<CatalogEntry>) -> (names: StringHashSet)
    ensures
        names@ == table_names_of(entries@),
{
    let table = String::from_str("table");
    let mut names = StringHashSet::new();
    let mut i: usize = 0;
    while i < entries.len()
        invariant
            i <= entries.len(),
            table@ == "table"@,
            names@ == table_names_of(entries@.take(i as int)),
        decreases entries.len() - i,
    {
        if entries[i].kind == table {
            names.insert(entries[i].name.clone());
        }
        proof {
            assert(entries@.take(i + 1) =~= entries@.take(i as int).push(entries@[i as int]));
            lemma_table_names_push(entries@.take(i as int), entries@[i as int]);
        }
        i = i + 1;
    }
    assert(entries@.take(i as int) =~= entries@);
    names
}

/// The names of all tables that the database of `session` holds now. Views,
/// indexes and other kinds of entry are left out.
///
/// The catalog is read afresh on every call. The call fails with the
/// engine's error where the engine refuses to list its catalog.
pub fn tables(session: &mut Session<'_>) -> (found: Result<StringHashSet, RusqliteHelperError>)
    ensures
        final(session).continues(old(session)),
        final(session).since(old(session)).len() == 1,
        final(session).since(old(session))[0].statement == "PRAGMA table_list"@,
        final(session).since(old(session))[0].binding == Binding::Nothing,
        match final(session).since(old(session))[0].reply {
            Reply::Catalog(entries) => found matches Ok(names) && names@ == table_names_of(entries),
            Reply::Refused(cause) => found == Err::<StringHashSet, _>(
                RusqliteHelperError::SQLite(cause),
            ),
            _ => false,
        },
{
    match session.catalog() {
        Ok(entries) => Ok(table_names(&entries)),
        Err(cause) => Err(RusqliteHelperError::SQLite(cause)),
    }
}

} // verus!
