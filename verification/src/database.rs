//! What the answers of storage mean.

use vstd::prelude::*;
use crate::error::{Error, ErrorChain};

verus! {

/// What a change of the row with a given key comes to, by the number of rows
/// it changed: none means that there is no such row. A key names at most one
/// row.
pub fn affected(rows: u64) -> (res: Result<(), Error>)
    requires
        rows <= 1,
    ensures
        res == if rows == 0 {
            Err::<(), Error>(Error::NotFound)
        } else {
            Ok(())
        },
{
    if rows == 0 {
        Err(Error::NotFound)
    } else {
        Ok(())
    }
}

/// The row that was asked for, or the report that there is none.
pub fn found<T>(row: Option<T>) -> (res: Result<T, Error>)
    ensures
        res == match row {
            Some(r) => Ok::<T, Error>(r),
            None => Err(Error::NotFound),
        },
{
    match row {
        Some(r) => Ok(r),
        None => Err(Error::NotFound),
    }
}

/// The error for a query that storage failed on.
pub fn failed() -> (e: Error)
    ensures
        e == Error::Internal(ErrorChain { context: "execute sql" }),
{
    Error::internal("execute sql")
}

} // verus!
