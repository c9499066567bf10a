//! Adding a library.

use vstd::prelude::*;
use crate::auth::name::Name;
use crate::auth::USER_TAG;
use crate::error::Error;
use crate::id::{row_or, Id, IdCipher};
use crate::libraries::address::Address;
use crate::libraries::currency::{supported, Currency};
use crate::libraries::daily_rate::DailyRate;
use crate::libraries::overdue_rate::OverdueRate;
use crate::libraries::NewLibrary;
use crate::text::byte_len_spec;

verus! {

/// A library to be stored.
pub struct CreateLibrary {
    pub owner_id: i64,
    pub name: Name,
    pub address: Address,
    pub daily_rate: DailyRate,
    pub overdue_rate: OverdueRate,
    pub currency: Currency,
}

/// The first rule that the details of a library break, if they break one:
/// the name holds at most 50 bytes, the address at most 100, and the
/// currency is a supported one.
pub open spec fn library_fault(name: Seq<char>, address: Seq<char>, currency: Seq<char>) -> Option<
    &'static str,
> {
    if byte_len_spec(name) > 50 {
        Some("name is too long")
    } else if byte_len_spec(address) > 100 {
        Some("address is too long")
    } else if !supported(currency) {
        Some("unsupported currency")
    } else {
        None
    }
}

/// The library to store. An owner's identifier that names no account means
/// that there is no such owner; then the first rule that the details break
/// is reported.
pub fn add_library(library: NewLibrary, cipher: &IdCipher) -> (res: Result<CreateLibrary, Error>)
    ensures
        match row_or(USER_TAG, library.owner_id@, cipher@, Error::NotFound) {
            Err(e) => res matches Err(found) && found == e,
            Ok(owner) => match res {
                Ok(l) => {
                    &&& library_fault(library.name@, library.address@, library.currency@) is None
                    &&& l.owner_id == owner
                    &&& l.name@ == library.name@
                    &&& l.address@ == library.address@
                    &&& l.daily_rate.0 == library.daily_rate
                    &&& l.overdue_rate.0 == library.overdue_rate
                    &&& l.currency@ == library.currency@
                },
                Err(e) => library_fault(library.name@, library.address@, library.currency@)
                    matches Some(reason) && e == Error::Validation(reason),
            },
        },
{
    let NewLibrary { owner_id, name, address, daily_rate, overdue_rate, currency } = library;
    let owner_id = match owner_id.sql_id_or(cipher, Error::NotFound) {
        Ok(row) => row,
        Err(e) => {
            return Err(e);
        },
    };
    let name = match Name::new(name) {
        Ok(v) => v,
        Err(e) => {
            return Err(e);
        },
    };
    let address = match Address::new(address) {
        Ok(v) => v,
        Err(e) => {
            return Err(e);
        },
    };
    let currency = match Currency::new(currency) {
        Ok(v) => v,
        Err(e) => {
            return Err(e);
        },
    };
    Ok(
        CreateLibrary {
            owner_id,
            name,
            address,
            daily_rate: DailyRate(daily_rate),
            overdue_rate: OverdueRate(overdue_rate),
            currency,
        },
    )
}

} // verus!
