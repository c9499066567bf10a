//! Removing a library.

use vstd::prelude::*;
use crate::error::Error;
use crate::id::{row_or, Id, IdCipher};
use crate::libraries::{LibraryId, LIBRARY_TAG};

verus! {

/// The row of the library to remove, once the caller was asked for the
/// permission of an administrator. A caller without it must sign in, whatever
/// the reason; an identifier that names no library means that there is none.
pub fn delete_library(permission: Result<(), Error>, library_id: LibraryId, cipher: &IdCipher) -> (res:
    Result<i64, Error>)
    ensures
        res == match permission {
            Err(_) => Err::<i64, Error>(Error::LoggedOff),
            Ok(()) => row_or(LIBRARY_TAG, library_id@, cipher@, Error::NotFound),
        },
{
    match permission {
        Err(_) => Err(Error::LoggedOff),
        Ok(()) => library_id.sql_id_or(cipher, Error::NotFound),
    }
}

} // verus!
