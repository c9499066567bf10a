//! Showing libraries.

use vstd::prelude::*;
use crate::auth::name::Name;
use crate::auth::{UserId, USER_TAG};
use crate::error::Error;
use crate::id::{row_or, sealed, Id, IdCipher};
use crate::libraries::address::Address;
use crate::libraries::currency::Currency;
use crate::libraries::daily_rate::DailyRate;
use crate::libraries::overdue_rate::OverdueRate;
use crate::libraries::{Library, LibraryId, RatedLibrary, LIBRARY_TAG};

verus! {

/// How well a library does.
pub type Rating = i64;

/// A library as storage holds it.
pub struct DbLibrary {
    pub id: i64,
    pub name: Name,
    pub address: Address,
    pub daily_rate: DailyRate,
    pub overdue_rate: OverdueRate,
    pub currency: Currency,
}

/// Whether `library` shows the stored `row`: the same details, under the
/// identifier of the row.
pub open spec fn shows(library: Library, row: DbLibrary, key: Seq<u8>) -> bool {
    &&& library.id@ == sealed(LIBRARY_TAG, row.id, key)
    &&& library.name@ == row.name@
    &&& library.address@ == row.address@
    &&& library.daily_rate == row.daily_rate
    &&& library.overdue_rate == row.overdue_rate
    &&& library.currency@ == row.currency@
}

/// The sum of a list of numbers of days.
pub open spec fn total(days: Seq<i64>) -> int
    decreases days.len(),
{
    if days.len() == 0 {
        0
    } else {
        total(days.drop_last()) + days.last()
    }
}

/// The rating of a library by the lendings of its books, each given as the
/// number of days it was lent for: the mean number of days, rounded towards
/// zero, plus the number of lendings; zero without lendings.
pub open spec fn rating_of(days: Seq<i64>) -> int {
    if days.len() == 0 {
        0
    } else {
        (if total(days) >= 0 {
            total(days) / (days.len() as int)
        } else {
            -((-total(days)) / (days.len() as int))
        }) + days.len()
    }
}

/// The sum of the days, where every sum on the way fits 64 bits.
pub open spec fn sums_fit(days: Seq<i64>) -> bool {
    forall|n: int| 0 <= n <= days.len() ==> i64::MIN <= #[trigger] total(days.take(n)) <= i64::MAX
}

/// The rating of a library by the days that its books were lent for. None
/// where the sum of the days or the rating does not fit 64 bits.
pub fn rating(activity: &Vec<i64>) -> (res: Option<Rating>)
    ensures
        match res {
            Some(r) => r == rating_of(activity@),
            None => !sums_fit(activity@) || rating_of(activity@) > i64::MAX,
        },
{
    let mut sum: i64 = 0;
    let mut i: usize = 0;
    proof {
        assert(activity@.take(0) =~= Seq::<i64>::empty());
    }
    while i < activity.len()
        invariant
            i <= activity.len(),
            sum == total(activity@.take(i as int)),
            forall|n: int| 0 <= n <= i ==> i64::MIN <= #[trigger] total(activity@.take(n))
                <= i64::MAX,
        decreases activity.len() - i,
    {
        proof {
            assert(activity@.take(i + 1).drop_last() =~= activity@.take(i as int));
            assert(activity@.take(i + 1).last() == activity@[i as int]);
        }
        sum = match sum.checked_add(activity[i]) {
            Some(s) => s,
            None => {
                assert(total(activity@.take(i + 1)) == sum + activity@[i as int]);
                return None;
            },
        };
        i += 1;
    }
    proof {
        assert(activity@.take(activity@.len() as int) =~= activity@);
        assert forall|n: int| 0 <= n <= activity@.len() implies i64::MIN <= #[trigger] total(
            activity@.take(n),
        ) <= i64::MAX by {}
    }
    if activity.len() == 0 {
        return Some(0);
    }
    let count: i128 = activity.len() as i128;
    let mean: i128 = if sum >= 0 {
        (sum as i128) / count
    } else {
        -((-(sum as i128)) / count)
    };
    proof {
        lemma_mean_bound(sum as int, count as int);
    }
    let rated: i128 = mean + count;
    if rated <= i64::MAX as i128 {
        Some(rated as i64)
    } else {
        None
    }
}

/// The mean of a sum that fits 64 bits, rounded towards zero, lies between
/// the sum and zero.
proof fn lemma_mean_bound(sum: int, count: int)
    requires
        count >= 1,
    ensures
        sum >= 0 ==> 0 <= sum / count <= sum,
        sum < 0 ==> 0 <= (-sum) / count <= -sum,
{
    if sum >= 0 {
        vstd::arithmetic::div_mod::lemma_div_pos_is_pos(sum, count);
        vstd::arithmetic::div_mod::lemma_div_is_ordered_by_denominator(sum, 1, count);
    } else {
        vstd::arithmetic::div_mod::lemma_div_pos_is_pos(-sum, count);
        vstd::arithmetic::div_mod::lemma_div_is_ordered_by_denominator(-sum, 1, count);
    }
}

/// Shows one stored library.
fn show(row: &DbLibrary, cipher: &IdCipher) -> (library: Library)
    ensures
        shows(library, *row, cipher@),
{
    Library {
        id: LibraryId::new(row.id, cipher),
        name: row.name.clone(),
        address: row.address.clone(),
        daily_rate: row.daily_rate,
        overdue_rate: row.overdue_rate,
        currency: row.currency.clone(),
    }
}

/// Shows the stored libraries, in their order.
pub fn list_libraries(rows: &Vec<DbLibrary>, cipher: &IdCipher) -> (libraries: Vec<Library>)
    ensures
        libraries@.len() == rows@.len(),
        forall|i: int|
            0 <= i < rows@.len() ==> shows(#[trigger] libraries@[i], rows@[i], cipher@),
{
    let mut libraries: Vec<Library> = Vec::new();
    let mut i: usize = 0;
    while i < rows.len()
        invariant
            i <= rows.len(),
            libraries@.len() == i,
            forall|j: int| 0 <= j < i ==> shows(#[trigger] libraries@[j], rows@[j], cipher@),
        decreases rows.len() - i,
    {
        libraries.push(show(&rows[i], cipher));
        i += 1;
    }
    libraries
}

/// The row of the account whose libraries are listed. An identifier that
/// names no account means that the caller must sign in.
pub fn list_my_libraries(user_id: UserId, cipher: &IdCipher) -> (res: Result<i64, Error>)
    ensures
        res == row_or(USER_TAG, user_id@, cipher@, Error::LoggedOff),
{
    user_id.sql_id_or(cipher, Error::LoggedOff)
}

/// The row of the library to show. An identifier that names no library
/// means that there is none.
pub fn library_row(id: LibraryId, cipher: &IdCipher) -> (res: Result<i64, Error>)
    ensures
        res == row_or(LIBRARY_TAG, id@, cipher@, Error::NotFound),
{
    id.sql_id_or(cipher, Error::NotFound)
}

/// Shows a library alone, with its owner and its rating by the days that its
/// books were lent for. A rating that does not fit 64 bits is a failure
/// inside the service.
pub fn view_library(row: DbLibrary, owner: i64, activity: &Vec<i64>, cipher: &IdCipher) -> (res:
    Result<RatedLibrary, Error>)
    ensures
        match res {
            Ok(l) => {
                &&& l.id@ == sealed(LIBRARY_TAG, row.id, cipher@)
                &&& l.name@ == row.name@
                &&& l.address@ == row.address@
                &&& l.daily_rate == row.daily_rate
                &&& l.overdue_rate == row.overdue_rate
                &&& l.currency@ == row.currency@
                &&& l.owner_id@ == sealed(USER_TAG, owner, cipher@)
                &&& l.rating == rating_of(activity@)
            },
            Err(e) => e == Error::Internal(crate::error::ErrorChain { context: "rate library" })
                && (!sums_fit(activity@) || rating_of(activity@) > i64::MAX),
        },
{
    let rating = match rating(activity) {
        Some(r) => r,
        None => {
            return Err(Error::internal("rate library"));
        },
    };
    let owner_id = UserId::new(owner, cipher);
    Ok(
        RatedLibrary {
            id: LibraryId::new(row.id, cipher),
            name: row.name,
            address: row.address,
            daily_rate: row.daily_rate,
            overdue_rate: row.overdue_rate,
            currency: row.currency,
            owner_id,
            rating,
        },
    )
}

} // verus!
