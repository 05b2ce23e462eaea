//! The rows of a query: what comes of them once each has been decoded.

use vstd::prelude::*;
use crate::error::RusqliteHelperError;

verus! {

/// What a query hands back for the rows `items` and the way `broken` in
/// which the engine ended them: the first row that could not be decoded
/// fails the query; if there is none, an engine error fails it; otherwise
/// the records come back, all of them and in their order.
pub open spec fn settles<R>(
    items: Seq<Result<R, serde_rusqlite::Error>>,
    broken: Option<rusqlite::Error>,
    found: Result<Vec<R>, RusqliteHelperError>,
) -> bool {
    match found {
        Ok(records) => {
            &&& broken is None
            &&& records@.len() == items.len()
            &&& forall|i: int| 0 <= i < items.len() ==> #[trigger] items[i] == Ok::<
                R,
                serde_rusqlite::Error,
            >(records@[i])
        },
        Err(RusqliteHelperError::Serialization(cause)) => exists|k: int|
            {
                &&& 0 <= k < items.len()
                &&& #[trigger] items[k] == Err::<R, serde_rusqlite::Error>(cause)
                &&& forall|i: int| 0 <= i < k ==> (#[trigger] items[i]) is Ok
            },
        Err(RusqliteHelperError::SQLite(cause)) => {
            &&& broken == Some(cause)
            &&& forall|i: int| 0 <= i < items.len() ==> (#[trigger] items[i]) is Ok
        },
    }
}

/// Settles a query: see [`settles`].
pub fn gather<R>(
    items: Vec<Result<R, serde_rusqlite::Error>>,
    broken: Option<rusqlite::Error>,
) -> (found: Result<Vec<R>, RusqliteHelperError>)
    ensures
        settles(items@, broken, found),
{
    let mut records: Vec<R> = Vec::new();
    for item in it: items
        invariant
            it.seq() == items@,
            records@.len() == it.index(),
            forall|i: int|
                0 <= i < it.index() ==> #[trigger] items@[i] == Ok::<R, serde_rusqlite::Error>(
                    records@[i],
                ),
    {
        match item {
            Ok(record) => records.push(record),
            Err(cause) => {
                return Err(RusqliteHelperError::Serialization(cause));
            },
        }
    }
    match broken {
        None => Ok(records),
        Some(cause) => Err(RusqliteHelperError::SQLite(cause)),
    }
}

/// A query that selects no row, and that the engine does not break off,
/// hands back no record and no error.
pub proof fn lemma_no_rows_settle_empty<R>(found: Result<Vec<R>, RusqliteHelperError>)
    requires
        settles(Seq::<Result<R, serde_rusqlite::Error>>::empty(), None, found),
    ensures
        found matches Ok(records) && records@.len() == 0,
{
}

/// A query with a row that could not be decoded fails as a serialization
/// failure, never with an engine error, and with the error of the first
/// such row.
pub proof fn lemma_undecoded_row_fails_query<R>(
    items: Seq<Result<R, serde_rusqlite::Error>>,
    broken: Option<rusqlite::Error>,
    found: Result<Vec<R>, RusqliteHelperError>,
    k: int,
)
    requires
        settles(items, broken, found),
        0 <= k < items.len(),
        items[k] is Err,
        forall|i: int| 0 <= i < k ==> (#[trigger] items[i]) is Ok,
    ensures
        found == Err::<Vec<R>, _>(RusqliteHelperError::Serialization(items[k]->Err_0)),
{
}

} // verus!
