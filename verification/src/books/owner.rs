//! Who may change the books of a library: its owner.

use vstd::prelude::*;
use crate::auth::{UserId, USER_TAG};
use crate::error::Error;
use crate::id::{row_or, Id, IdCipher};
use crate::libraries::{LibraryId, LIBRARY_TAG};

verus! {

/// The rows of an owner and a library. An owner's identifier that names no
/// account means that the caller must sign in; a library's that names none,
/// that there is no such library.
pub open spec fn owned_library_spec(owner: u128, library: u128, key: Seq<u8>) -> Result<
    (i64, i64),
    Error,
> {
    match row_or(USER_TAG, owner, key, Error::LoggedOff) {
        Err(e) => Err(e),
        Ok(owner_row) => match row_or(LIBRARY_TAG, library, key, Error::NotFound) {
            Err(e) => Err(e),
            Ok(library_row) => Ok((owner_row, library_row)),
        },
    }
}

/// The rows of an owner and a library, in this order.
pub fn owned_library(owner_id: UserId, library_id: LibraryId, cipher: &IdCipher) -> (res: Result<
    (i64, i64),
    Error,
>)
    ensures
        res == owned_library_spec(owner_id@, library_id@, cipher@),
{
    let owner = match owner_id.sql_id_or(cipher, Error::LoggedOff) {
        Ok(row) => row,
        Err(e) => {
            return Err(e);
        },
    };
    let library = match library_id.sql_id_or(cipher, Error::NotFound) {
        Ok(row) => row,
        Err(e) => {
            return Err(e);
        },
    };
    Ok((owner, library))
}

/// Whether the caller owns the library, by whether storage holds the library
/// with that owner: who does not own it is unauthorized.
pub fn check_owns(owned: bool) -> (res: Result<(), Error>)
    ensures
        res == if owned {
            Ok::<(), Error>(())
        } else {
            Err(Error::Unauthorized)
        },
{
    if owned {
        Ok(())
    } else {
        Err(Error::Unauthorized)
    }
}

} // verus!
