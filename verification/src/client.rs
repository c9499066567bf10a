//! What a lending desk decides before it asks the service: for how many days
//! a book is lent, and where the service is asked.

use vstd::prelude::*;
use vstd::string::StringExecFns;
use rand::Rng;

verus! {

/// Scores below this count as low.
pub const MIN_THRESHOLD: u64 = 5;

/// The longest lending, in days.
pub const MAX_LEND: u64 = 14;

/// For how many days a book with a lending score is lent: with a low score,
/// the longest lending less the score; with a score below the longest
/// lending, the longest lending divided by the score; else the sum of both
/// divided by the threshold.
pub open spec fn days_for(score: u64) -> int {
    if score < MIN_THRESHOLD {
        MAX_LEND - score
    } else if score < MAX_LEND {
        MAX_LEND as int / score as int
    } else {
        (MAX_LEND + score) / MIN_THRESHOLD as int
    }
}

/// For how many days a book with a lending score is lent.
pub fn days_to_lend(score: u64) -> (days: u64)
    ensures
        days == days_for(score),
{
    if score < MIN_THRESHOLD {
        MAX_LEND - score
    } else if score < MAX_LEND {
        MAX_LEND / score
    } else {
        ((MAX_LEND as u128 + score as u128) / (MIN_THRESHOLD as u128)) as u64
    }
}

/// One more than the highest score that is drawn where the service tells
/// none.
pub const DRAWN_SCORES: u64 = 31;

/// `Rng::gen_range` on the thread's generator, for the range from 0 up to a
/// bound: a random number below the bound.
#[verifier::external_body]
fn random_below(bound: u64) -> (number: u64)
    requires
        bound > 0,
    ensures
        number < bound,
{
    rand::thread_rng().gen_range(0..bound)
}

/// For how many days a book is lent, by its lending score where the service
/// told one, and by a random score below 31 where it did not.
pub fn calculate_days_to_lend(score: Option<u64>) -> (days: u64)
    ensures
        match score {
            Some(s) => days == days_for(s),
            None => exists|s: u64| s < DRAWN_SCORES && days == #[trigger] days_for(s),
        },
{
    match score {
        Some(s) => days_to_lend(s),
        None => days_to_lend(random_below(DRAWN_SCORES)),
    }
}

/// The address of a path of the service.
pub fn endpoint(base_url: &str, path: &str) -> (url: String)
    ensures
        url@ == base_url@ + path@,
{
    String::from_str(base_url).concat(path)
}

} // verus!
