//! Libraries.

use vstd::prelude::*;
use crate::auth::name::{Name, UnvalidatedName};
use crate::auth::UserId;
use crate::id::Id;

pub mod add;
pub mod address;
pub mod currency;
pub mod daily_rate;
pub mod delete;
pub mod overdue_rate;
pub mod update;
pub mod view;

pub use add::add_library;
pub use address::{Address, UnvalidatedAddress};
pub use currency::{Currency, UnvalidatedCurrency};
pub use daily_rate::{DailyRate, Decimal, UnvalidatedDailyRate};
pub use delete::delete_library;
pub use overdue_rate::{OverdueRate, UnvalidatedOverdueRate};
pub use update::update_library;
pub use view::{list_libraries, view_library, Rating};

verus! {

/// The tag of libraries: the name `library`.
pub const LIBRARY_TAG: u64 = 0x0079_7261_7262_696c;

/// The identifier of a library.
pub type LibraryId = Id<LIBRARY_TAG>;

/// What an administrator sends to add a library.
pub struct NewLibrary {
    pub owner_id: UserId,
    pub name: UnvalidatedName,
    pub address: UnvalidatedAddress,
    pub daily_rate: UnvalidatedDailyRate,
    pub overdue_rate: UnvalidatedOverdueRate,
    pub currency: UnvalidatedCurrency,
}

/// A library as it is shown in a list.
pub struct Library {
    pub id: LibraryId,
    pub name: Name,
    pub address: Address,
    pub daily_rate: DailyRate,
    pub overdue_rate: OverdueRate,
    pub currency: Currency,
}

/// A library as it is shown alone: with its owner and its rating.
pub struct RatedLibrary {
    pub id: LibraryId,
    pub name: Name,
    pub address: Address,
    pub daily_rate: DailyRate,
    pub overdue_rate: OverdueRate,
    pub currency: Currency,
    pub owner_id: UserId,
    pub rating: Rating,
}

/// What an administrator sends to change a library.
pub struct UpdateLibrary {
    pub owner_id: UserId,
    pub name: UnvalidatedName,
    pub address: UnvalidatedAddress,
    pub daily_rate: UnvalidatedDailyRate,
    pub overdue_rate: UnvalidatedOverdueRate,
    pub currency: UnvalidatedCurrency,
}

} // verus!
