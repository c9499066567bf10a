//! Changing a library.

use vstd::prelude::*;
use crate::auth::name::Name;
use crate::auth::USER_TAG;
use crate::error::Error;
use crate::id::{row_or, Id, IdCipher};
use crate::libraries::add::library_fault;
use crate::libraries::address::Address;
use crate::libraries::currency::Currency;
use crate::libraries::daily_rate::DailyRate;
use crate::libraries::overdue_rate::OverdueRate;
use crate::libraries::{LibraryId, UpdateLibrary, LIBRARY_TAG};

verus! {

/// The new details of the library in a given row.
pub struct DbLibrary {
    pub id: i64,
    pub owner_id: i64,
    pub name: Name,
    pub address: Address,
    pub daily_rate: DailyRate,
    pub overdue_rate: OverdueRate,
    pub currency: Currency,
}

/// The rows of a library and of its new owner, or the report that one of
/// them does not exist.
pub open spec fn library_and_owner(library: u128, owner: u128, key: Seq<u8>) -> Result<
    (i64, i64),
    Error,
> {
    match row_or(LIBRARY_TAG, library, key, Error::NotFound) {
        Err(e) => Err(e),
        Ok(library_row) => match row_or(USER_TAG, owner, key, Error::NotFound) {
            Err(e) => Err(e),
            Ok(owner_row) => Ok((library_row, owner_row)),
        },
    }
}

/// The new details to store for a library. An identifier that names no
/// library or no owner means that there is none; then the first rule that
/// the details break is reported.
pub fn update_library(library_id: LibraryId, library: UpdateLibrary, cipher: &IdCipher) -> (res:
    Result<DbLibrary, Error>)
    ensures
        match library_and_owner(library_id@, library.owner_id@, cipher@) {
            Err(e) => res matches Err(found) && found == e,
            Ok(rows) => match res {
                Ok(l) => {
                    &&& library_fault(library.name@, library.address@, library.currency@) is None
                    &&& l.id == rows.0
                    &&& l.owner_id == rows.1
                    &&& l.name@ == library.name@
                    &&& l.address@ == library.address@
                    &&& l.daily_rate.0 == library.daily_rate
                    &&& l.overdue_rate.0 == library.overdue_rate
                    &&& l.currency@ == library.currency@
                },
                Err(e) => library_fault(library.name@, library.address@, library.currency@)
                    matches Some(reason) && e == Error::Validation(reason),
            },
        },
{
    let id = match library_id.sql_id_or(cipher, Error::NotFound) {
        Ok(row) => row,
        Err(e) => {
            return Err(e);
        },
    };
    let UpdateLibrary { owner_id, name, address, daily_rate, overdue_rate, currency } = library;
    let owner_id = match owner_id.sql_id_or(cipher, Error::NotFound) {
        Ok(row) => row,
        Err(e) => {
            return Err(e);
        },
    };
    let name = match Name::new(name) {
        Ok(v) => v,
        Err(e) => {
            return Err(e);
        },
    };
    let address = match Address::new(address) {
        Ok(v) => v,
        Err(e) => {
            return Err(e);
        },
    };
    let currency = match Currency::new(currency) {
        Ok(v) => v,
        Err(e) => {
            return Err(e);
        },
    };
    Ok(
        DbLibrary {
            id,
            owner_id,
            name,
            address,
            daily_rate: DailyRate(daily_rate),
            overdue_rate: OverdueRate(overdue_rate),
            currency,
        },
    )
}

} // verus!
